use vstd::prelude::*;

use crate::error::PipelineError;

verus! {

#[verifier::external_type_specification]
#[verifier::external_body]
pub struct ExDynamicImage(image::DynamicImage);

#[verifier::external_type_specification]
#[verifier::external_body]
pub struct ExImageError(image::ImageError);

/// Bytes that a `width` by `height` raster with `channels` bytes per pixel occupies.
pub open spec fn raster_len(width: nat, height: nat, channels: nat) -> nat {
    channels * width * height
}

/// The PNG file that the encoder writes for a `width` by `height` RGB8 raster.
pub uninterp spec fn png_of_rgb(width: u32, height: u32, pixels: Seq<u8>) -> Seq<u8>;

/// Whether `len` is exactly the size of a `width` by `height` RGB24 raster.
fn is_rgb_raster_len(width: u32, height: u32, len: usize) -> (r: bool)
    ensures
        r == (len == raster_len(width as nat, height as nat, 3)),
{
    let row: u64 = 3 * width as u64;
    assert(row * height <= 3 * 0xffff_ffff * 0xffff_ffff) by (nonlinear_arith)
        requires
            row == 3 * width,
            width <= 0xffff_ffff,
            height <= 0xffff_ffff,
    ;
    let needed: u128 = row as u128 * height as u128;
    assert(needed == raster_len(width as nat, height as nat, 3)) by (nonlinear_arith)
        requires
            row == 3 * width,
            needed == row * height,
    ;
    needed == len as u128
}

/// `rows` rows of `row_len` bytes each, the rows starting every `stride` bytes of
/// `data`, concatenated: a strided frame plane made tightly packed.
pub open spec fn packed_rows(data: Seq<u8>, stride: nat, row_len: nat, rows: nat) -> Seq<u8> {
    Seq::new(
        rows * row_len,
        |k: int| data[(k / row_len as int) * stride + k % row_len as int],
    )
}

/// Whether `rows` rows of `row_len` bytes, `stride` bytes apart, lie within `len` bytes.
pub open spec fn rows_fit(len: nat, stride: nat, row_len: nat, rows: nat) -> bool {
    rows == 0 || (rows - 1) * stride + row_len <= len
}

/// Copies the `rows` rows of `row_len` bytes that start every `stride` bytes of `data`
/// into one tightly packed buffer, dropping the padding at the end of each row. Fails
/// with `RasterConstructionError` when the last row does not lie within `data`.
pub fn pack_rows(data: &Vec<u8>, stride: usize, row_len: usize, rows: usize) -> (r: Result<
    Vec<u8>,
    PipelineError,
>)
    ensures
        match r {
            Ok(v) => rows_fit(data@.len(), stride as nat, row_len as nat, rows as nat) && v@
                == packed_rows(data@, stride as nat, row_len as nat, rows as nat),
            Err(e) => !rows_fit(data@.len(), stride as nat, row_len as nat, rows as nat) && e
                == PipelineError::RasterConstructionError,
        },
{
    let data_len: usize = data.len();
    if rows > 0 {
        let last: u128 = (rows - 1) as u128;
        assert(last * stride <= 0xffff_ffff_ffff_ffff * 0xffff_ffff_ffff_ffff) by (nonlinear_arith)
            requires
                last <= 0xffff_ffff_ffff_ffff,
                stride <= 0xffff_ffff_ffff_ffff,
        ;
        let need: u128 = last * stride as u128 + row_len as u128;
        if need > data_len as u128 {
            return Err(PipelineError::RasterConstructionError);
        }
    }
    let ghost len = data@.len();
    let mut out: Vec<u8> = Vec::new();
    let mut r: usize = 0;
    while r < rows
        invariant
            r <= rows,
            len == data@.len(),
            len <= usize::MAX,
            rows_fit(len, stride as nat, row_len as nat, rows as nat),
            out@.len() == r * row_len,
            forall|k: int|
                0 <= k < out@.len() ==> #[trigger] out@[k] == data@[(k / row_len as int) * stride
                    + k % row_len as int],
        decreases rows - r,
    {
        proof {
            vstd::arithmetic::mul::lemma_mul_inequality(r as int, rows - 1, stride as int);
            assert(r * stride + row_len <= len);
        }
        let start: usize = r * stride;
        let mut c: usize = 0;
        while c < row_len
            invariant
                r < rows,
                c <= row_len,
                len == data@.len(),
                len <= usize::MAX,
                start == r * stride,
                start + row_len <= len,
                out@.len() == r * row_len + c,
                forall|k: int|
                    0 <= k < out@.len() ==> #[trigger] out@[k] == data@[(k / row_len as int)
                        * stride + k % row_len as int],
            decreases row_len - c,
        {
            proof {
                vstd::arithmetic::div_mod::lemma_fundamental_div_mod_converse(
                    r * row_len + c,
                    row_len as int,
                    r as int,
                    c as int,
                );
            }
            out.push(data[start + c]);
            c = c + 1;
        }
        assert((r + 1) * row_len == r * row_len + row_len) by (nonlinear_arith);
        r = r + 1;
    }
    assert(out@ =~= packed_rows(data@, stride as nat, row_len as nat, rows as nat));
    Ok(out)
}

/// Relies on image::ImageBuffer::from_raw for RGB pixels, whose result is then
/// wrapped as a `DynamicImage`: the buffer is taken when `3 * width` fits a `usize`
/// and the buffer holds at least three bytes per pixel, and `None` is returned
/// otherwise.
#[verifier::external_body]
fn rgb_image_from_raw(width: u32, height: u32, data: Vec<u8>) -> (r: Option<image::DynamicImage>)
    ensures
        r is Some <==> (3 * width <= usize::MAX && raster_len(width as nat, height as nat, 3)
            <= data@.len()),
{
    image::RgbImage::from_raw(width, height, data).map(image::DynamicImage::ImageRgb8)
}

/// Wraps a tightly packed RGB24 buffer as a `width` by `height` image. Fails with
/// `RasterConstructionError` when the buffer is not exactly three bytes per pixel
/// (or when a row's size does not fit a `usize`).
pub fn build_rgb_image(width: u32, height: u32, data: Vec<u8>) -> (r: Result<
    image::DynamicImage,
    PipelineError,
>)
    ensures
        r is Ok <==> (data@.len() == raster_len(width as nat, height as nat, 3) && 3 * width
            <= usize::MAX),
        r matches Err(e) ==> e == PipelineError::RasterConstructionError,
{
    if !is_rgb_raster_len(width, height, data.len()) {
        return Err(PipelineError::RasterConstructionError);
    }
    match rgb_image_from_raw(width, height, data) {
        Some(img) => Ok(img),
        None => Err(PipelineError::RasterConstructionError),
    }
}

/// Relies on image::codecs::png::PngEncoder's ImageEncoder::write_image with
/// `ExtendedColorType::Rgb8`, writing into a `Vec`: it asserts that the buffer is
/// exactly the raster's size (hence the precondition), fails when the width or the
/// height is zero, and otherwise returns the encoded file, a function of the raster
/// alone.
#[verifier::external_body]
fn write_png(width: u32, height: u32, pixels: &Vec<u8>) -> (r: Result<Vec<u8>, image::ImageError>)
    requires
        pixels@.len() == raster_len(width as nat, height as nat, 3),
    ensures
        r is Ok <==> (width > 0 && height > 0),
        r matches Ok(b) ==> b@ == png_of_rgb(width, height, pixels@),
{
    let mut bytes: Vec<u8> = Vec::new();
    let encoder = image::codecs::png::PngEncoder::new(&mut bytes);
    image::ImageEncoder::write_image(encoder, pixels, width, height, image::ExtendedColorType::Rgb8)
        .map(|_| bytes)
}

/// Encodes a tightly packed `width` by `height` RGB24 raster losslessly as PNG. Fails
/// with `RasterConstructionError` when the buffer is not exactly three bytes per pixel,
/// and with `EncodeError` when the raster is empty (zero width or height).
pub fn encode_png(width: u32, height: u32, pixels: &Vec<u8>) -> (r: Result<Vec<u8>, PipelineError>)
    ensures
        match r {
            Ok(b) => {
                &&& pixels@.len() == raster_len(width as nat, height as nat, 3)
                &&& width > 0 && height > 0
                &&& b@ == png_of_rgb(width, height, pixels@)
            },
            Err(e) => if pixels@.len() != raster_len(width as nat, height as nat, 3) {
                e == PipelineError::RasterConstructionError
            } else {
                e == PipelineError::EncodeError && (width == 0 || height == 0)
            },
        },
{
    if !is_rgb_raster_len(width, height, pixels.len()) {
        return Err(PipelineError::RasterConstructionError);
    }
    match write_png(width, height, pixels) {
        Ok(bytes) => Ok(bytes),
        Err(_) => Err(PipelineError::EncodeError),
    }
}

} // verus!
