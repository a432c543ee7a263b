use vstd::prelude::*;

use crate::error::PipelineError;

verus! {

/// Height, in pixels, of every rescaled frame.
pub const TARGET_HEIGHT: u32 = 720;

/// `n / d` rounded to the nearest integer, halves rounded up.
pub open spec fn round_div(n: nat, d: nat) -> nat
    recommends
        d > 0,
{
    (2 * n + d) / (2 * d)
}

/// Width that keeps the aspect ratio of a `w` by `h` source at the target height.
pub open spec fn target_width(w: nat, h: nat) -> nat {
    round_div(TARGET_HEIGHT as nat * w, h)
}

/// Whether a `w` by `h` source has a target resolution that fits the rescaler's `u32` sizes.
pub open spec fn has_target_resolution(w: nat, h: nat) -> bool {
    h > 0 && target_width(w, h) <= u32::MAX
}

/// The rescaled frame size for a source of the given size: the height is fixed at
/// `TARGET_HEIGHT` and the width is `TARGET_HEIGHT * source_width / source_height`
/// rounded to the nearest integer. A source of height zero, or one so wide that the
/// width does not fit a `u32`, has none.
pub fn compute_target_resolution(source_width: u32, source_height: u32) -> (r: Result<
    (u32, u32),
    PipelineError,
>)
    ensures
        match r {
            Ok((w, h)) => has_target_resolution(source_width as nat, source_height as nat)
                && w == target_width(source_width as nat, source_height as nat) && h
                == TARGET_HEIGHT,
            Err(e) => !has_target_resolution(source_width as nat, source_height as nat) && e
                == PipelineError::RescaleError,
        },
{
    if source_height == 0 {
        return Err(PipelineError::RescaleError);
    }
    let height: u64 = TARGET_HEIGHT as u64;
    assert(height == 720);
    let n: u64 = height * source_width as u64;
    let d: u64 = source_height as u64;
    let q: u64 = (2 * n + d) / (2 * d);
    if q > u32::MAX as u64 {
        Err(PipelineError::RescaleError)
    } else {
        Ok((q as u32, TARGET_HEIGHT))
    }
}

/// The target width is the source aspect ratio times the target height, off by at
/// most half a pixel: `|width / TARGET_HEIGHT - w / h| <= 1 / (2 * TARGET_HEIGHT)`.
pub proof fn lemma_target_width_keeps_aspect(w: nat, h: nat)
    requires
        h > 0,
    ensures
        -(h as int) <= 2 * (target_width(w, h) * h - TARGET_HEIGHT * w) <= h as int,
{
    let n: int = TARGET_HEIGHT as int * w;
    let d: int = 2 * (h as int);
    let q: int = target_width(w, h) as int;
    assert(q == (2 * n + h) / d);
    vstd::arithmetic::div_mod::lemma_fundamental_div_mod(2 * n + h, d);
    let r: int = (2 * n + h) % d;
    assert(0 <= r < d);
    assert(2 * n + h == d * q + r);
    assert(2 * (q * h - n) == d * q - 2 * n) by (nonlinear_arith)
        requires
            d == 2 * h,
    ;
}

} // verus!
