use make87_messages::image::uncompressed::image_raw_any::Image;
use make87_messages::image::uncompressed::{ImageRawAny, ImageYuv420};
use make87_messages::Message;
use topic_bridge::compress::{encode_compressed, jpeg_encoder_input, CompressError, JpegInput, Subsampling};
use topic_bridge::envelope::Timestamp;
use topic_bridge::handlers::{Artifact, ImageRawAnyHandler};
use topic_bridge::pixels::{NormalizeError, PixelFormat, RawImage};

fn raw(width: u32, height: u32, data: Vec<u8>, format: PixelFormat) -> RawImage {
    RawImage { width, height, data, format }
}

fn is_jpeg(bytes: &[u8]) -> bool {
    bytes.len() > 4 && bytes[..2] == [0xff, 0xd8] && bytes[bytes.len() - 2..] == [0xff, 0xd9]
}

#[test]
fn yuv420_interleaves_with_shared_chroma() {
    let image = raw(2, 2, vec![10, 20, 30, 40, 50, 60], PixelFormat::Yuv420);
    let (pixels, input, sampling) = jpeg_encoder_input(&image).unwrap();
    assert_eq!(pixels, vec![10, 50, 60, 20, 50, 60, 30, 50, 60, 40, 50, 60]);
    assert_eq!((input, sampling), (JpegInput::Ycbcr, Subsampling::S420));
}

#[test]
fn nv12_interleaves_after_split() {
    let image = raw(2, 2, vec![1, 2, 3, 4, 7, 9], PixelFormat::Nv12);
    let (pixels, _, sampling) = jpeg_encoder_input(&image).unwrap();
    assert_eq!(pixels, vec![1, 7, 9, 2, 7, 9, 3, 7, 9, 4, 7, 9]);
    assert_eq!(sampling, Subsampling::S420);
}

#[test]
fn yuv422_and_yuv444_interleave() {
    let (p, _, s) = jpeg_encoder_input(&raw(2, 1, vec![1, 2, 3, 4], PixelFormat::Yuv422)).unwrap();
    assert_eq!(p, vec![1, 3, 4, 2, 3, 4]);
    assert_eq!(s, Subsampling::S422);
    let (p, _, s) = jpeg_encoder_input(&raw(1, 1, vec![1, 2, 3], PixelFormat::Yuv444)).unwrap();
    assert_eq!(p, vec![1, 2, 3]);
    assert_eq!(s, Subsampling::S444);
}

#[test]
fn rgb_and_rgba_go_to_the_encoder_as_they_are() {
    let (p, i, s) = jpeg_encoder_input(&raw(1, 1, vec![1, 2, 3], PixelFormat::Rgb888)).unwrap();
    assert_eq!((p, i, s), (vec![1, 2, 3], JpegInput::Rgb, Subsampling::S444));
    let (p, i, _) = jpeg_encoder_input(&raw(1, 1, vec![1, 2, 3, 4], PixelFormat::Rgba8888)).unwrap();
    assert_eq!((p, i), (vec![1, 2, 3, 4], JpegInput::Rgba));
}

#[test]
fn compressed_layout_errors() {
    let r = jpeg_encoder_input(&raw(3, 1, vec![0; 6], PixelFormat::Yuv422));
    assert_eq!(r.unwrap_err(), CompressError::Layout(NormalizeError::OddDimensions { width: 3, height: 1 }));
    let r = encode_compressed(&raw(2, 2, vec![0; 5], PixelFormat::Nv12), 80);
    assert_eq!(r.unwrap_err(), CompressError::Layout(NormalizeError::SizeMismatch { expected: 6, actual: 5 }));
}

#[test]
fn rgb_encodes_to_jpeg_stream() {
    let data: Vec<u8> = (0..8 * 8 * 3).map(|i| (i % 251) as u8).collect();
    let c = encode_compressed(&raw(8, 8, data, PixelFormat::Rgb888), 80).unwrap();
    assert_eq!(c.media_type, "image/jpeg");
    assert!(is_jpeg(&c.data));
}

#[test]
fn yuv420_encodes_to_jpeg_stream() {
    let mut data = vec![100u8; 16 * 16];
    data.extend(vec![128u8; 128]);
    let c = encode_compressed(&raw(16, 16, data, PixelFormat::Yuv420), 75).unwrap();
    assert!(is_jpeg(&c.data));
}

#[test]
fn zero_sized_image_is_refused_by_encoder() {
    let r = encode_compressed(&raw(0, 0, vec![], PixelFormat::Rgb888), 80);
    assert_eq!(r.unwrap_err(), CompressError::Encoding);
}

#[test]
fn oversized_dimension_is_too_large() {
    let r = encode_compressed(&raw(70_000, 0, vec![], PixelFormat::Rgb888), 80);
    assert_eq!(r.unwrap_err(), CompressError::TooLarge);
}

#[test]
fn raw_any_handler_can_forward_jpeg() {
    let inner = ImageYuv420 { header: None, width: 4, height: 2, data: vec![60; 12] };
    let msg = ImageRawAny { header: None, image: Some(Image::Yuv420(inner)) };
    let now = Timestamp { seconds: 1, nanos: 2 };
    let f = ImageRawAnyHandler::new().handle_message_compressed(&msg.encode_to_vec(), now, 90).unwrap();
    assert_eq!(f.path, "/");
    match f.artifact {
        Artifact::Compressed(c) => assert!(is_jpeg(&c.data)),
        other => panic!("unexpected artifact {:?}", other),
    }
}
