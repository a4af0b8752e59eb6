//! UTF-8 delivery: commit and preedit-draw calls carry the committed or
//! in-progress character UTF-8 encoded; this is the encoder, proved
//! against vstd's definition of the encoding.

use vstd::prelude::*;
use vstd::utf8::char_is_scalar;
use vstd::utf8::encode_scalar;

verus! {

/// The UTF-8 encoding of one character, as handed to the transport in a
/// commit or preedit-draw call.
pub fn encode_utf8_char(c: char) -> (bytes: Vec<u8>)
    ensures
        bytes@ == encode_scalar(c as u32),
        1 <= bytes@.len() <= 4,
{
    let u = c as u32;
    proof {
        char_is_scalar(c);
    }
    let mut bytes: Vec<u8> = Vec::new();
    if u < 0x80 {
        bytes.push((u & 0x7F) as u8);
    } else if u < 0x800 {
        bytes.push(0xC0 | ((u >> 6) & 0x1F) as u8);
        bytes.push(0x80 | (u & 0x3F) as u8);
    } else if u < 0x10000 {
        bytes.push(0xE0 | ((u >> 12) & 0x0F) as u8);
        bytes.push(0x80 | ((u >> 6) & 0x3F) as u8);
        bytes.push(0x80 | (u & 0x3F) as u8);
    } else {
        bytes.push(0xF0 | ((u >> 18) & 0x7) as u8);
        bytes.push(0x80 | ((u >> 12) & 0x3F) as u8);
        bytes.push(0x80 | ((u >> 6) & 0x3F) as u8);
        bytes.push(0x80 | (u & 0x3F) as u8);
    }
    proof {
        assert(bytes@ =~= encode_scalar(c as u32));
    }
    bytes
}

} // verus!
