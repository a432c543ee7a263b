use vstd::prelude::*;

use crate::output::{decimal, push_decimal};

verus! {

/// Header of a binary portable pixmap: `P6\n{width} {height}\n255\n`.
pub open spec fn ppm_header(width: nat, height: nat) -> Seq<u8> {
    // "P6\n"
    seq![80u8, 54, 10] + decimal(width) + seq![32u8] + decimal(height)
    // "\n255\n"
        + seq![10u8, 50, 53, 53, 10]
}

/// A binary portable pixmap of a `width` by `height` RGB raster: the header followed
/// by `pixels` unchanged.
pub fn ppm_bytes(width: u32, height: u32, pixels: &Vec<u8>) -> (r: Vec<u8>)
    ensures
        r@ == ppm_header(width as nat, height as nat) + pixels@,
{
    let mut out: Vec<u8> = vec![80u8, 54, 10];
    push_decimal(&mut out, width as u64);
    out.push(32u8);
    push_decimal(&mut out, height as u64);
    let mut tail: Vec<u8> = vec![10u8, 50, 53, 53, 10];
    out.append(&mut tail);
    let ghost header = out@;
    assert(header =~= ppm_header(width as nat, height as nat));
    let mut i: usize = 0;
    while i < pixels.len()
        invariant
            i <= pixels@.len(),
            out@ == header + pixels@.take(i as int),
        decreases pixels@.len() - i,
    {
        out.push(pixels[i]);
        assert(pixels@.take(i as int).push(pixels@[i as int]) =~= pixels@.take(i + 1));
        i = i + 1;
    }
    assert(pixels@.take(pixels@.len() as int) =~= pixels@);
    out
}

} // verus!
