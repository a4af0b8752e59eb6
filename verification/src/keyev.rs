//! The slice of a raw key event that the core reads: the event subtype,
//! the key code, and the modifier state.

use vstd::prelude::*;

verus! {

/// Event subtype of a key-press event on the wire.
pub const KEY_PRESS_EVENT: u8 = 2;
/// Modifier-state bit for a held shift key.
pub const STATE_SHIFT: u16 = 1;
/// Modifier-state bit for a held control key.
pub const STATE_CONTROL: u16 = 4;

/// The fields of a forwarded key event that the core reads.
#[derive(Clone, Copy, PartialEq, Eq, Structural, Debug)]
pub struct KeyEventInput {
    /// Event subtype; only `KEY_PRESS_EVENT` reaches the engine.
    pub response_type: u8,
    /// The raw key code.
    pub detail: u8,
    /// The modifier-state word.
    pub state: u16,
}

/// What of a key event is handed to the composition engine: the key code
/// and the two modifier flags the engine consumes.
#[derive(Clone, Copy, PartialEq, Eq, Structural, Debug)]
pub struct KeyInput {
    pub key_code: u8,
    pub shift: bool,
    pub ctrl: bool,
}

/// The engine's view of a key event, if the event is one the engine gets
/// to see at all: key presses only, never releases or other subtypes.
pub open spec fn spec_key_input(ev: KeyEventInput) -> Option<KeyInput> {
    if ev.response_type == KEY_PRESS_EVENT {
        Some(
            KeyInput {
                key_code: ev.detail,
                shift: ev.state & STATE_SHIFT != 0,
                ctrl: ev.state & STATE_CONTROL != 0,
            },
        )
    } else {
        None
    }
}

/// Decide whether a forwarded key event is consulted with the engine.
///
/// Only key-press events are; every other subtype is passed through as
/// not consumed, with no engine involvement.
pub fn key_input(ev: &KeyEventInput) -> (r: Option<KeyInput>)
    ensures
        r == spec_key_input(*ev),
{
    if ev.response_type == KEY_PRESS_EVENT {
        Some(
            KeyInput {
                key_code: ev.detail,
                shift: ev.state & STATE_SHIFT != 0,
                ctrl: ev.state & STATE_CONTROL != 0,
            },
        )
    } else {
        None
    }
}

} // verus!
