use vstd::prelude::*;

verus! {

/// The per-frame processing that a run applies; each writes one file per frame.
#[derive(Debug, Clone, Copy, PartialEq, Eq, Structural)]
pub enum Strategy {
    /// Luma conversion and Canny edge detection, written as PNG.
    EdgeDetect,
    /// Gaussian blur of the RGB raster, written as PNG.
    Blur,
    /// The raw RGB raster, written as a binary portable pixmap.
    RawExport,
}

/// ASCII decimal digits of `n`, most significant first, without leading zeros.
pub open spec fn decimal(n: nat) -> Seq<u8>
    decreases n,
{
    if n < 10 {
        seq![(48 + n) as u8]
    } else {
        decimal(n / 10).push((48 + n % 10) as u8)
    }
}

/// Text of an output file name before the frame index.
pub open spec fn name_prefix(strategy: Strategy) -> Seq<u8> {
    match strategy {
        // "frames/frame"
        Strategy::EdgeDetect => seq![
            102u8, 114, 97, 109, 101, 115, 47, 102, 114, 97, 109, 101,
        ],
        // "frames/blurred_frame"
        Strategy::Blur => seq![
            102u8, 114, 97, 109, 101, 115, 47, 98, 108, 117, 114, 114, 101,
            100, 95, 102, 114, 97, 109, 101,
        ],
        // "frame"
        Strategy::RawExport => seq![102u8, 114, 97, 109, 101],
    }
}

/// Text of an output file name after the frame index.
pub open spec fn name_suffix(strategy: Strategy) -> Seq<u8> {
    match strategy {
        // ".ppm"
        Strategy::RawExport => seq![46u8, 112, 112, 109],
        // ".png"
        _ => seq![46u8, 112, 110, 103],
    }
}

/// Path, relative to the working directory, of the file written for frame `index`:
/// `frames/frame{index}.png`, `frames/blurred_frame{index}.png` or `frame{index}.ppm`.
pub open spec fn file_name(strategy: Strategy, index: nat) -> Seq<u8> {
    name_prefix(strategy) + decimal(index) + name_suffix(strategy)
}

/// Appends the decimal digits of `n` to `out`.
pub fn push_decimal(out: &mut Vec<u8>, n: u64)
    ensures
        final(out)@ == old(out)@ + decimal(n as nat),
    decreases n,
{
    if n < 10 {
        out.push(48 + n as u8);
        assert(old(out)@.push((48 + n) as u8) =~= old(out)@ + decimal(n as nat));
    } else {
        push_decimal(out, n / 10);
        out.push(48 + (n % 10) as u8);
        assert(old(out)@ + decimal((n / 10) as nat) + seq![(48 + n % 10) as u8] =~= old(out)@
            + decimal(n as nat));
    }
}

/// The file name, as ASCII bytes, under which `strategy` writes frame `index`.
pub fn output_file_name(strategy: Strategy, index: u64) -> (r: Vec<u8>)
    ensures
        r@ == file_name(strategy, index as nat),
{
    let mut out: Vec<u8> = match strategy {
        Strategy::EdgeDetect => vec![
            102u8, 114, 97, 109, 101, 115, 47, 102, 114, 97, 109, 101,
        ],
        Strategy::Blur => vec![
            102u8, 114, 97, 109, 101, 115, 47, 98, 108, 117, 114, 114, 101,
            100, 95, 102, 114, 97, 109, 101,
        ],
        Strategy::RawExport => vec![102u8, 114, 97, 109, 101],
    };
    assert(out@ =~= name_prefix(strategy));
    push_decimal(&mut out, index);
    let mut suffix: Vec<u8> = match strategy {
        Strategy::RawExport => vec![46u8, 112, 112, 109],
        _ => vec![46u8, 112, 110, 103],
    };
    assert(suffix@ =~= name_suffix(strategy));
    out.append(&mut suffix);
    out
}

/// Every decimal rendering holds at least one digit, each an ASCII digit.
pub proof fn lemma_decimal_digits(n: nat)
    ensures
        decimal(n).len() >= 1,
        n >= 10 ==> decimal(n).len() >= 2,
        forall|i: int| 0 <= i < decimal(n).len() ==> 48 <= #[trigger] decimal(n)[i] <= 57,
    decreases n,
{
    if n >= 10 {
        lemma_decimal_digits(n / 10);
    }
}

/// Distinct numbers have distinct decimal renderings.
pub proof fn lemma_decimal_injective(a: nat, b: nat)
    requires
        decimal(a) == decimal(b),
    ensures
        a == b,
    decreases a,
{
    lemma_decimal_digits(a);
    lemma_decimal_digits(b);
    if a < 10 || b < 10 {
        if a >= 10 {
            assert(decimal(b).len() == 1);
        } else if b >= 10 {
            assert(decimal(a).len() == 1);
        } else {
            assert(decimal(a)[0] == decimal(b)[0]);
        }
    } else {
        let da = decimal(a);
        let db = decimal(b);
        assert(da.drop_last() =~= decimal(a / 10));
        assert(db.drop_last() =~= decimal(b / 10));
        assert(da.last() == db.last());
        lemma_decimal_injective(a / 10, b / 10);
    }
}

/// Frames with distinct indices are written to distinct files, so a run never
/// overwrites one of its own outputs, and the set of files a run writes is fixed by
/// its strategy and its frame count.
pub proof fn lemma_file_names_distinct(strategy: Strategy, i: nat, j: nat)
    requires
        i != j,
    ensures
        file_name(strategy, i) != file_name(strategy, j),
{
    let p = name_prefix(strategy);
    let s = name_suffix(strategy);
    if file_name(strategy, i) == file_name(strategy, j) {
        let fi = file_name(strategy, i);
        let fj = file_name(strategy, j);
        assert(fi.len() == fj.len());
        assert(decimal(i).len() == decimal(j).len());
        assert(fi.subrange(p.len() as int, (p.len() + decimal(i).len()) as int) =~= decimal(i));
        assert(fj.subrange(p.len() as int, (p.len() + decimal(j).len()) as int) =~= decimal(j));
        lemma_decimal_injective(i, j);
    }
}

} // verus!
