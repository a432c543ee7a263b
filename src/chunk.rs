use vstd::prelude::*;

verus! {

/// `a / b` rounded toward negative infinity (for `b != 0`).
pub open spec fn floor_div(a: int, b: int) -> int {
    if b > 0 {
        a / b
    } else {
        (-a) / (-b)
    }
}

/// Number of frames in one chunk of `secs` seconds at `num / den` frames per second.
pub open spec fn chunk_frames(num: int, den: int, secs: int) -> int {
    floor_div(num * secs, den)
}

/// For `d > 0` and `n >= 0`, dividing `-n` by `d` and rounding down gives
/// minus the ceiling of `n / d`.
proof fn lemma_floor_div_negated(n: int, d: int)
    requires
        n >= 0,
        d > 0,
    ensures
        (-n) / d == -((n + d - 1) / d),
{
    let q = (n + d - 1) / d;
    let r = (n + d - 1) % d;
    vstd::arithmetic::div_mod::lemma_fundamental_div_mod(n + d - 1, d);
    assert(n + d - 1 == d * q + r);
    assert(-n == (-q) * d + (d - 1 - r)) by (nonlinear_arith)
        requires
            n + d - 1 == d * q + r,
    ;
    vstd::arithmetic::div_mod::lemma_fundamental_div_mod_converse(-n, d, -q, d - 1 - r);
}

/// Frames per chunk: `floor(rate_num * chunk_duration_sec / rate_den)` for a source
/// whose average frame rate is the fraction `rate_num / rate_den`. A frame rate with a
/// zero denominator (an unknown rate) gives none.
pub fn frames_per_chunk(rate_num: i32, rate_den: i32, chunk_duration_sec: u32) -> (r: Option<
    i64,
>)
    ensures
        r == (if rate_den == 0 {
            None
        } else {
            Some(chunk_frames(rate_num as int, rate_den as int, chunk_duration_sec as int) as i64)
        }),
        rate_den != 0 ==> i64::MIN <= chunk_frames(
            rate_num as int,
            rate_den as int,
            chunk_duration_sec as int,
        ) <= i64::MAX,
{
    if rate_den == 0 {
        return None;
    }
    let num_mag: u64 = if rate_num < 0 {
        (-(rate_num as i64)) as u64
    } else {
        rate_num as u64
    };
    let d: u64 = if rate_den < 0 {
        (-(rate_den as i64)) as u64
    } else {
        rate_den as u64
    };
    assert(num_mag <= 0x8000_0000);
    let secs: u64 = chunk_duration_sec as u64;
    assert(num_mag * secs <= 0x8000_0000 * 0xffff_ffff) by (nonlinear_arith)
        requires
            num_mag <= 0x8000_0000,
            secs <= 0xffff_ffff,
    ;
    let n: u64 = num_mag * secs;
    let ghost a: int = rate_num as int * chunk_duration_sec as int;
    let ghost b: int = rate_den as int;
    let negative: bool = (rate_num < 0) != (rate_den < 0) && n != 0;
    proof {
        if rate_num < 0 {
            assert(a == -(n as int)) by (nonlinear_arith)
                requires
                    a == rate_num as int * secs,
                    num_mag == -(rate_num as int),
                    n == num_mag * secs,
            ;
        } else {
            assert(a == n as int) by (nonlinear_arith)
                requires
                    a == rate_num as int * secs,
                    num_mag == rate_num as int,
                    n == num_mag * secs,
            ;
        }
        vstd::arithmetic::div_mod::lemma_div_pos_is_pos(n as int, d as int);
        vstd::arithmetic::div_mod::lemma_div_is_ordered_by_denominator(n as int, 1, d as int);
        vstd::arithmetic::div_mod::lemma_div_pos_is_pos((n + d - 1) as int, d as int);
        vstd::arithmetic::div_mod::lemma_div_is_ordered_by_denominator(
            (n + d - 1) as int,
            1,
            d as int,
        );
        lemma_floor_div_negated(n as int, d as int);
    }
    if !negative {
        Some((n / d) as i64)
    } else {
        let c: u64 = (n + (d - 1)) / d;
        Some(-(c as i64))
    }
}

} // verus!
