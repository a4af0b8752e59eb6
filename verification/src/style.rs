//! Style negotiation: the advertised input-style table and the rule that
//! picks a rendering mode for a requested style.
//!
//! A style is the protocol's 32-bit style word. The server advertises seven
//! combinations: one root style with no preedit, three where the server
//! draws preedit on an owned surface, and three where the client draws it
//! on callbacks; the three in each group differ only in their status
//! sub-style.

use vstd::prelude::*;

verus! {

/// Preedit sub-style bit: the client draws preedit through callbacks.
pub const PREEDIT_CALLBACKS: u32 = 2;
/// Preedit sub-style bit: the server draws preedit at the client's spot.
pub const PREEDIT_POSITION: u32 = 4;
/// Preedit sub-style bit: no preedit drawing.
pub const PREEDIT_NOTHING: u32 = 8;
/// Status sub-style bit: status drawn in a client-given area.
pub const STATUS_AREA: u32 = 256;
/// Status sub-style bit: no status drawing.
pub const STATUS_NOTHING: u32 = 1024;
/// Status sub-style bit: the client wants no status at all.
pub const STATUS_NONE: u32 = 2048;

/// How preedit text of a session is delivered: drawn by the client on
/// protocol callbacks, or drawn by the server on a surface it owns.
/// The mode is fixed when the session is created and never changes.
#[derive(Clone, Copy, PartialEq, Eq, Structural, Debug)]
pub enum RenderMode {
    InlineCallback,
    SurfaceRendered,
}

/// The mode a requested style asks for: `InlineCallback` iff the style
/// word carries the preedit-callbacks bit.
pub open spec fn spec_classify(style: u32) -> RenderMode {
    if style & PREEDIT_CALLBACKS == PREEDIT_CALLBACKS {
        RenderMode::InlineCallback
    } else {
        RenderMode::SurfaceRendered
    }
}

/// Decide the rendering mode of a requested style.
///
/// The transport only hands styles drawn from the advertised table, so the
/// sole discriminator is the preedit-callbacks bit.
pub fn classify(style: u32) -> (mode: RenderMode)
    ensures
        mode == spec_classify(style),
{
    if style & PREEDIT_CALLBACKS == PREEDIT_CALLBACKS {
        RenderMode::InlineCallback
    } else {
        RenderMode::SurfaceRendered
    }
}

/// The advertised style table, in advertisement order: the root style,
/// the three surface-rendered styles, the three inline-callback styles.
pub open spec fn spec_input_styles() -> Seq<u32> {
    seq![
        PREEDIT_NOTHING,
        PREEDIT_POSITION | STATUS_AREA,
        PREEDIT_POSITION | STATUS_NOTHING,
        PREEDIT_POSITION | STATUS_NONE,
        PREEDIT_CALLBACKS | STATUS_AREA,
        PREEDIT_CALLBACKS | STATUS_NOTHING,
        PREEDIT_CALLBACKS | STATUS_NONE,
    ]
}

/// The style table handed to the transport at connection negotiation.
pub fn input_styles() -> (table: Vec<u32>)
    ensures
        table@ == spec_input_styles(),
{
    let mut table: Vec<u32> = Vec::new();
    table.push(PREEDIT_NOTHING);
    table.push(PREEDIT_POSITION | STATUS_AREA);
    table.push(PREEDIT_POSITION | STATUS_NOTHING);
    table.push(PREEDIT_POSITION | STATUS_NONE);
    table.push(PREEDIT_CALLBACKS | STATUS_AREA);
    table.push(PREEDIT_CALLBACKS | STATUS_NOTHING);
    table.push(PREEDIT_CALLBACKS | STATUS_NONE);
    proof {
        assert(table@ =~= spec_input_styles());
    }
    table
}

/// Law: over the whole advertised table, `classify` answers
/// `InlineCallback` exactly on the styles whose preedit sub-style is the
/// callback variant, and `SurfaceRendered` on all others.
pub proof fn lemma_style_table_classification()
    ensures
        spec_input_styles().len() == 7,
        forall|i: int|
            0 <= i < 7 ==> (spec_classify(#[trigger] spec_input_styles()[i])
                == RenderMode::InlineCallback
                <==> spec_input_styles()[i] & PREEDIT_CALLBACKS == PREEDIT_CALLBACKS),
        spec_classify(spec_input_styles()[0]) == RenderMode::SurfaceRendered,
        spec_classify(spec_input_styles()[1]) == RenderMode::SurfaceRendered,
        spec_classify(spec_input_styles()[2]) == RenderMode::SurfaceRendered,
        spec_classify(spec_input_styles()[3]) == RenderMode::SurfaceRendered,
        spec_classify(spec_input_styles()[4]) == RenderMode::InlineCallback,
        spec_classify(spec_input_styles()[5]) == RenderMode::InlineCallback,
        spec_classify(spec_input_styles()[6]) == RenderMode::InlineCallback,
{
    assert(8u32 & 2 != 2) by (bit_vector);
    assert((4u32 | 256) & 2 != 2) by (bit_vector);
    assert((4u32 | 1024) & 2 != 2) by (bit_vector);
    assert((4u32 | 2048) & 2 != 2) by (bit_vector);
    assert((2u32 | 256) & 2 == 2) by (bit_vector);
    assert((2u32 | 1024) & 2 == 2) by (bit_vector);
    assert((2u32 | 2048) & 2 == 2) by (bit_vector);
}

} // verus!
