//! Pixel Converter: raw BGRA bytes to the RGBA encoding the consumer renders.
//!
//! The transform is pure: each complete four-byte pixel swaps its blue and
//! red channels and keeps green and alpha; a trailing partial pixel is
//! discarded rather than reported as an error, so a truncated frame still
//! yields its complete prefix.

use vstd::prelude::*;

verus! {

/// The byte at position `i` of the converted image, drawn from the raw
/// BGRA bytes: positions 0 and 2 of each pixel swap, 1 and 3 stay.
pub open spec fn converted_byte(raw: Seq<u8>, i: int) -> u8 {
    if i % 4 == 0 {
        raw[i + 2]
    } else if i % 4 == 2 {
        raw[i - 2]
    } else {
        raw[i]
    }
}

/// The RGBA image that `convert` produces from raw BGRA bytes: one output
/// byte per input byte of every complete pixel, trailing bytes dropped.
pub open spec fn convert_spec(raw: Seq<u8>) -> Seq<u8> {
    Seq::new((raw.len() / 4) * 4, |i: int| converted_byte(raw, i))
}

/// Pixel `p` of `out` is pixel `p` of `raw` with red and blue swapped and
/// green and alpha unchanged.
pub open spec fn pixel_swapped(raw: Seq<u8>, out: Seq<u8>, p: int) -> bool {
    &&& out[4 * p] == raw[4 * p + 2]
    &&& out[4 * p + 1] == raw[4 * p + 1]
    &&& out[4 * p + 2] == raw[4 * p]
    &&& out[4 * p + 3] == raw[4 * p + 3]
}

/// Converts a raw BGRA frame to RGBA, one complete pixel at a time.
///
/// Any trailing bytes that do not form a whole pixel are discarded; an
/// empty input yields an empty output. Never fails.
pub fn convert(raw: &[u8]) -> (out: Vec<u8>)
    ensures
        out@ == convert_spec(raw@),
        out@.len() == (raw@.len() / 4) * 4,
        forall|p: int| 0 <= p < raw@.len() / 4 ==> #[trigger] pixel_swapped(raw@, out@, p),
{
    let pixels: usize = raw.len() / 4;
    let mut out: Vec<u8> = Vec::new();
    let mut p: usize = 0;
    while p < pixels
        invariant
            raw@.len() <= usize::MAX,
            pixels == raw@.len() / 4,
            p <= pixels,
            out@.len() == 4 * p,
            forall|i: int| 0 <= i < 4 * p ==> out@[i] == converted_byte(raw@, i),
        decreases pixels - p,
    {
        out.push(raw[4 * p + 2]);
        out.push(raw[4 * p + 1]);
        out.push(raw[4 * p]);
        out.push(raw[4 * p + 3]);
        p = p + 1;
    }
    assert(out@ =~= convert_spec(raw@));
    out
}

} // verus!
