use make87_messages::google::protobuf::Timestamp as WireTimestamp;
use make87_messages::image::compressed::ImageJpeg;
use make87_messages::image::uncompressed::image_raw_any::Image;
use make87_messages::image::uncompressed::{ImageRawAny, ImageRgb888, ImageYuv420, ImageYuv422};
use make87_messages::text::PlainText;
use make87_messages::Message;
use topic_bridge::envelope::Timestamp;
use topic_bridge::handlers::{
    Artifact, HandleError, ImageCompressedJpegHandler, ImageRawAnyHandler, ImageRgb888Handler,
    ImageYuv420Handler, TextPlainTextHandler,
};
use topic_bridge::pixels::{NormalizeError, PixelFormat};

const NOW: Timestamp = Timestamp { seconds: 1000, nanos: 0 };

#[test]
fn plain_text_is_forwarded() {
    let mut msg = PlainText { header: None, body: "hello".to_string() };
    let h = msg.header.get_or_insert_with(Default::default);
    h.entity_path = "cam0/log".to_string();
    h.timestamp = Some(WireTimestamp { seconds: 5, nanos: 7 });
    let f = TextPlainTextHandler::new().handle_message(&msg.encode_to_vec(), NOW).unwrap();
    assert_eq!(f.path, "/cam0/log");
    assert_eq!(f.time, Timestamp { seconds: 5, nanos: 7 });
    match f.artifact {
        Artifact::Text(s) => assert_eq!(s, "hello"),
        other => panic!("unexpected artifact {:?}", other),
    }
}

#[test]
fn undecodable_payload_is_a_decode_error() {
    let r = TextPlainTextHandler::new().handle_message(&[0x0a, 0x05], NOW);
    assert_eq!(r.unwrap_err(), HandleError::Decode);
}

#[test]
fn jpeg_is_forwarded_verbatim() {
    let msg = ImageJpeg { header: None, data: vec![0xff, 0xd8, 1, 2] };
    let f = ImageCompressedJpegHandler::new().handle_message(&msg.encode_to_vec(), NOW).unwrap();
    assert_eq!(f.path, "/");
    assert_eq!(f.time, NOW);
    match f.artifact {
        Artifact::Compressed(c) => {
            assert_eq!(c.media_type, "image/jpeg");
            assert_eq!(c.data, vec![0xff, 0xd8, 1, 2]);
        }
        other => panic!("unexpected artifact {:?}", other),
    }
}

#[test]
fn yuv420_message_becomes_rgb_tensor() {
    let mut msg = ImageYuv420 { header: None, width: 2, height: 2, data: vec![16, 16, 235, 235, 128, 128] };
    msg.header.get_or_insert_with(Default::default).entity_path = "/cam".to_string();
    let f = ImageYuv420Handler::new().handle_message(&msg.encode_to_vec(), NOW).unwrap();
    assert_eq!(f.path, "/cam");
    assert_eq!(f.time, NOW);
    match f.artifact {
        Artifact::Tensor(t) => assert_eq!(t.data, vec![0, 0, 0, 0, 0, 0, 255, 255, 255, 255, 255, 255]),
        other => panic!("unexpected artifact {:?}", other),
    }
}

#[test]
fn rgb888_message_keeps_its_bytes() {
    let msg = ImageRgb888 { header: None, width: 1, height: 2, data: vec![1, 2, 3, 4, 5, 6] };
    let f = ImageRgb888Handler::new().handle_message(&msg.encode_to_vec(), NOW).unwrap();
    match f.artifact {
        Artifact::Tensor(t) => assert_eq!(t.to_packed(), vec![1, 2, 3, 4, 5, 6]),
        other => panic!("unexpected artifact {:?}", other),
    }
}

#[test]
fn raw_any_yuv422_is_unsupported() {
    let inner = ImageYuv422 { header: None, width: 2, height: 2, data: vec![0; 8] };
    let msg = ImageRawAny { header: None, image: Some(Image::Yuv422(inner)) };
    let r = ImageRawAnyHandler::new().handle_message(&msg.encode_to_vec(), NOW);
    assert_eq!(r.unwrap_err(), HandleError::Normalize(NormalizeError::Unsupported(PixelFormat::Yuv422)));
}

#[test]
fn raw_any_without_image_is_rejected() {
    let msg = ImageRawAny { header: None, image: None };
    let r = ImageRawAnyHandler::new().handle_message(&msg.encode_to_vec(), NOW);
    assert_eq!(r.unwrap_err(), HandleError::MissingImage);
}

#[test]
fn raw_any_short_buffer_is_malformed() {
    let inner = ImageRgb888 { header: None, width: 2, height: 2, data: vec![0; 5] };
    let mut msg = ImageRawAny { header: None, image: Some(Image::Rgb888(inner)) };
    msg.header.get_or_insert_with(Default::default).entity_path = "x".to_string();
    let r = ImageRawAnyHandler::new().handle_message(&msg.encode_to_vec(), NOW);
    assert_eq!(
        r.unwrap_err(),
        HandleError::Normalize(NormalizeError::SizeMismatch { expected: 12, actual: 5 })
    );
}
