use image::GenericImageView;
use video_chunks::error::PipelineError;
use video_chunks::output::{output_file_name, push_decimal, Strategy};
use video_chunks::ppm::ppm_bytes;
use video_chunks::raster::{build_rgb_image, encode_png, pack_rows};

#[test]
fn edge_detect_names() {
    assert_eq!(output_file_name(Strategy::EdgeDetect, 0), b"frames/frame0.png".to_vec());
    assert_eq!(output_file_name(Strategy::EdgeDetect, 42), b"frames/frame42.png".to_vec());
}

#[test]
fn blur_names() {
    assert_eq!(output_file_name(Strategy::Blur, 7), b"frames/blurred_frame7.png".to_vec());
    assert_eq!(output_file_name(Strategy::Blur, 100), b"frames/blurred_frame100.png".to_vec());
}

#[test]
fn raw_export_names() {
    assert_eq!(output_file_name(Strategy::RawExport, 305), b"frame305.ppm".to_vec());
}

#[test]
fn largest_index_name() {
    assert_eq!(
        output_file_name(Strategy::EdgeDetect, u64::MAX),
        b"frames/frame18446744073709551615.png".to_vec()
    );
}

#[test]
fn decimal_digits_are_appended() {
    let mut out = b"x".to_vec();
    push_decimal(&mut out, 1090);
    assert_eq!(out, b"x1090".to_vec());
}

#[test]
fn distinct_indices_give_distinct_names() {
    let names: Vec<Vec<u8>> = (0..200).map(|i| output_file_name(Strategy::Blur, i)).collect();
    for i in 0..names.len() {
        for j in 0..i {
            assert_ne!(names[i], names[j]);
        }
    }
}

#[test]
fn ppm_header_precedes_raw_pixels() {
    let pixels = vec![1u8, 2, 3, 250, 251, 252];
    let mut expected = b"P6\n2 1\n255\n".to_vec();
    expected.extend_from_slice(&pixels);
    assert_eq!(ppm_bytes(2, 1, &pixels), expected);
}

#[test]
fn ppm_of_empty_raster() {
    assert_eq!(ppm_bytes(0, 0, &Vec::new()), b"P6\n0 0\n255\n".to_vec());
}

#[test]
fn ppm_of_large_dimensions() {
    let bytes = ppm_bytes(1280, 720, &vec![9u8; 3]);
    assert_eq!(bytes, b"P6\n1280 720\n255\n\x09\x09\x09".to_vec());
}

#[test]
fn raster_of_exact_size_is_built() {
    let pixels: Vec<u8> = (0..12).collect();
    let img = build_rgb_image(2, 2, pixels.clone()).unwrap();
    assert_eq!(img.dimensions(), (2, 2));
    assert_eq!(img.into_rgb8().into_raw(), pixels);
}

#[test]
fn longer_buffer_is_rejected() {
    assert_eq!(
        build_rgb_image(3, 1, vec![5u8; 10]).err(),
        Some(PipelineError::RasterConstructionError)
    );
    assert_eq!(
        build_rgb_image(1, 1, vec![5u8; 4]).err(),
        Some(PipelineError::RasterConstructionError)
    );
}

#[test]
fn short_buffer_is_rejected() {
    assert_eq!(
        build_rgb_image(2, 2, vec![0u8; 11]).err(),
        Some(PipelineError::RasterConstructionError)
    );
}

#[test]
fn oversized_dimensions_are_rejected() {
    assert_eq!(
        build_rgb_image(u32::MAX, u32::MAX, vec![0u8; 16]).err(),
        Some(PipelineError::RasterConstructionError)
    );
}

#[test]
fn png_encoding_starts_with_the_signature() {
    let pixels: Vec<u8> = (0..36).map(|i| i as u8).collect();
    let png = encode_png(4, 3, &pixels).unwrap();
    assert_eq!(&png[..8], &[137u8, 80, 78, 71, 13, 10, 26, 10]);
    let decoded = image::load_from_memory(&png).unwrap().into_rgb8();
    assert_eq!(decoded.dimensions(), (4, 3));
    assert_eq!(decoded.into_raw(), pixels);
}

#[test]
fn png_of_mismatched_buffer_is_a_raster_error() {
    assert_eq!(encode_png(2, 2, &vec![0u8; 13]), Err(PipelineError::RasterConstructionError));
    assert_eq!(encode_png(2, 2, &vec![0u8; 11]), Err(PipelineError::RasterConstructionError));
}

#[test]
fn png_of_empty_raster_is_an_encode_error() {
    assert_eq!(encode_png(0, 5, &Vec::new()), Err(PipelineError::EncodeError));
    assert_eq!(encode_png(5, 0, &Vec::new()), Err(PipelineError::EncodeError));
}

#[test]
fn same_frame_gives_identical_outputs() {
    let data: Vec<u8> = (0..48).map(|i| (i * 5) as u8).collect();
    assert_eq!(encode_png(4, 4, &data), encode_png(4, 4, &data.clone()));
    assert_eq!(ppm_bytes(4, 4, &data), ppm_bytes(4, 4, &data));
    assert_eq!(output_file_name(Strategy::EdgeDetect, 9), output_file_name(Strategy::EdgeDetect, 9));
}

#[test]
fn padded_rows_are_packed() {
    let data: Vec<u8> = (0..10).collect();
    assert_eq!(pack_rows(&data, 5, 3, 2), Ok(vec![0, 1, 2, 5, 6, 7]));
}

#[test]
fn last_row_needs_no_padding() {
    let data: Vec<u8> = (0..8).collect();
    assert_eq!(pack_rows(&data, 5, 3, 2), Ok(vec![0, 1, 2, 5, 6, 7]));
    assert_eq!(pack_rows(&data, 3, 3, 2), Ok(vec![0, 1, 2, 3, 4, 5]));
}

#[test]
fn rows_beyond_the_buffer_are_rejected() {
    let data: Vec<u8> = (0..7).collect();
    assert_eq!(pack_rows(&data, 5, 3, 2), Err(PipelineError::RasterConstructionError));
    assert_eq!(pack_rows(&data, usize::MAX, 1, 3), Err(PipelineError::RasterConstructionError));
}

#[test]
fn no_rows_pack_to_nothing() {
    assert_eq!(pack_rows(&Vec::new(), 12, 9, 0), Ok(Vec::new()));
}
