//! The observable effects of the core: every call it asks the transport or
//! a preedit surface to perform is one `Action`, and each handler returns
//! the exact sequence of actions to perform, in order.

use vstd::prelude::*;

verus! {

/// X event-mask bit for key-press delivery.
pub const EVENT_MASK_KEY_PRESS: u32 = 1;
/// X event-mask bit for key-release delivery.
pub const EVENT_MASK_KEY_RELEASE: u32 = 2;

/// One call the core asks its caller to make, against the transport or
/// against the preedit surface named by its identity.
#[derive(Clone, Copy, PartialEq, Eq, Structural, Debug)]
pub enum Action {
    /// Tell the transport which events to forward for the session, and
    /// which of them synchronously.
    SetEventMask { forward: u32, synchronous: u32 },
    /// Deliver a committed character to the client.
    Commit { ch: char },
    /// Deliver an in-progress character through the protocol's
    /// preedit-draw callback (inline-callback sessions).
    DrawPreedit { ch: char },
    /// Put an in-progress character on the server-owned surface
    /// (surface-rendered sessions).
    SurfaceSetPreedit { id: u32, ch: char },
    /// Tear the surface down; issued exactly once, at session destruction.
    SurfaceDestroy { id: u32 },
}

} // verus!
