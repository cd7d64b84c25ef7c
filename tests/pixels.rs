use topic_bridge::color::yuv_to_rgb;
use topic_bridge::pixels::{
    compressed_jpeg, normalize, nv12_to_yuv420, yuv420_to_rgb, ColorModel, NormalizeError,
    PixelFormat, RawImage,
};

fn raw(width: u32, height: u32, data: Vec<u8>, format: PixelFormat) -> RawImage {
    RawImage { width, height, data, format }
}

#[test]
fn black_and_white_limits() {
    assert_eq!(yuv_to_rgb(16, 128, 128), (0, 0, 0));
    assert_eq!(yuv_to_rgb(235, 128, 128), (255, 255, 255));
    assert_eq!(yuv_to_rgb(0, 128, 128), (0, 0, 0));
}

#[test]
fn bt709_limited_range_exact_value() {
    // c = 84, d = -38, e = 72
    assert_eq!(yuv_to_rgb(100, 90, 200), (227, 68, 17));
    assert_eq!(yuv_to_rgb(126, 128, 128), (128, 128, 128));
}

#[test]
fn yuv420_output_is_three_bytes_per_pixel() {
    let w = 4u32;
    let h = 2u32;
    let mut data = vec![16u8; (w * h) as usize];
    data.extend(std::iter::repeat(128u8).take((w * h / 2) as usize));
    let out = yuv420_to_rgb(&data, w, h).unwrap();
    assert_eq!(out.len(), (w * h * 3) as usize);
    assert!(out.iter().all(|b| *b == 0));
}

#[test]
fn yuv420_reads_chroma_at_half_resolution() {
    // 4x2 image: Y plane 8 bytes, U plane 2 bytes, V plane 2 bytes.
    let mut data = vec![126u8; 8];
    data.extend_from_slice(&[128, 90]);
    data.extend_from_slice(&[128, 200]);
    let out = yuv420_to_rgb(&data, 4, 2).unwrap();
    assert_eq!(&out[0..3], &[128, 128, 128]);
    assert_eq!(&out[3..6], &[128, 128, 128]);
    let right = yuv_to_rgb(126, 90, 200);
    assert_eq!(&out[6..9], &[right.0, right.1, right.2]);
    assert_eq!(&out[21..24], &[right.0, right.1, right.2]);
}

#[test]
fn yuv420_short_input_is_malformed() {
    let data = vec![16u8; 5];
    assert_eq!(
        yuv420_to_rgb(&data, 2, 2),
        Err(NormalizeError::SizeMismatch { expected: 6, actual: 5 })
    );
}

#[test]
fn yuv420_odd_dimensions_are_rejected() {
    let data = vec![16u8; 9];
    assert_eq!(
        yuv420_to_rgb(&data, 3, 2),
        Err(NormalizeError::OddDimensions { width: 3, height: 2 })
    );
}

#[test]
fn nv12_split_separates_even_and_odd_chroma_bytes() {
    let data = vec![1u8, 2, 3, 4, 5, 6, 7, 8, 10, 20, 11, 21];
    let planar = nv12_to_yuv420(&data, 4, 2).unwrap();
    assert_eq!(planar, vec![1, 2, 3, 4, 5, 6, 7, 8, 10, 11, 20, 21]);
}

#[test]
fn nv12_neutral_chroma_gives_gray() {
    let w = 4u32;
    let h = 4u32;
    let mut data: Vec<u8> = (0..16).map(|i| (i * 15 + 10) as u8).collect();
    data.extend(std::iter::repeat(128u8).take(8));
    let image = normalize(raw(w, h, data, PixelFormat::Nv12)).unwrap();
    assert_eq!(image.color_model, ColorModel::Rgb);
    assert_eq!(image.data.len(), 48);
    for px in image.data.chunks(3) {
        assert_eq!(px[0], px[1]);
        assert_eq!(px[1], px[2]);
    }
    assert_ne!(image.data[0], image.data[45]);
}

#[test]
fn rgb888_tensor_round_trip() {
    let data: Vec<u8> = (0..18).collect();
    let image = normalize(raw(3, 2, data.clone(), PixelFormat::Rgb888)).unwrap();
    assert_eq!(image.color_model, ColorModel::Rgb);
    assert_eq!((image.height(), image.width(), image.channels), (2, 3, 3));
    assert_eq!((image.row_stride, image.col_stride, image.elem_stride), (9, 3, 1));
    let packed = image.to_packed();
    assert_eq!(packed, data);
    let again = normalize(raw(3, 2, packed, PixelFormat::Rgb888)).unwrap();
    assert_eq!(again.data, image.data);
}

#[test]
fn rgba8888_tensor_round_trip() {
    let data: Vec<u8> = (0..16).map(|i| 255 - i).collect();
    let image = normalize(raw(2, 2, data.clone(), PixelFormat::Rgba8888)).unwrap();
    assert_eq!(image.color_model, ColorModel::Rgba);
    assert_eq!((image.row_stride, image.col_stride, image.elem_stride), (8, 4, 1));
    assert_eq!(image.to_packed(), data);
}

#[test]
fn rgb888_size_mismatch() {
    let r = normalize(raw(2, 2, vec![0u8; 11], PixelFormat::Rgb888));
    assert_eq!(r.unwrap_err(), NormalizeError::SizeMismatch { expected: 12, actual: 11 });
}

#[test]
fn yuv422_and_yuv444_are_unsupported() {
    let r = normalize(raw(2, 2, vec![0u8; 8], PixelFormat::Yuv422));
    assert_eq!(r.unwrap_err(), NormalizeError::Unsupported(PixelFormat::Yuv422));
    let r = normalize(raw(2, 2, vec![0u8; 12], PixelFormat::Yuv444));
    assert_eq!(r.unwrap_err(), NormalizeError::Unsupported(PixelFormat::Yuv444));
}

#[test]
fn empty_image_normalizes_to_empty_tensor() {
    let image = normalize(raw(0, 0, vec![], PixelFormat::Yuv420)).unwrap();
    assert!(image.data.is_empty());
}

#[test]
fn jpeg_passes_through() {
    let c = compressed_jpeg(vec![0xff, 0xd8, 0xff]);
    assert_eq!(c.media_type, "image/jpeg");
    assert_eq!(c.data, vec![0xff, 0xd8, 0xff]);
}
