//! Decoding of protobuf payloads through make87's `ProtobufEncoder`, with each
//! decoded message turned into this library's own types.
//!
//! Whether a payload decodes, and to what, depends on its bytes alone; each outcome
//! is named by a spec function below.

use vstd::prelude::*;
use make87::encodings::{Encoder, ProtobufEncoder};
use make87_messages::image::compressed::ImageJpeg;
use make87_messages::image::uncompressed::image_raw_any::Image as RawAnyImage;
use make87_messages::image::uncompressed::{ImageRawAny, ImageRgb888, ImageRgba8888, ImageYuv420};
use make87_messages::text::PlainText;
use crate::envelope::{Header, Timestamp};
use crate::pixels::PixelFormat::{Nv12, Rgb888, Rgba8888, Yuv420, Yuv422, Yuv444};
use crate::pixels::{PixelFormat, RawImage};

verus! {

/// make87's stateless protobuf encoder, held by each handler.
#[verifier::external_type_specification]
#[verifier::external_body]
#[verifier::reject_recursive_types(T)]
pub struct ExProtobufEncoder<T>(ProtobufEncoder<T>);

/// The prost message types that the handlers decode; only carried, never read here.
#[verifier::external_type_specification]
#[verifier::external_body]
pub struct ExPlainText(PlainText);

#[verifier::external_type_specification]
#[verifier::external_body]
pub struct ExImageJpeg(ImageJpeg);

#[verifier::external_type_specification]
#[verifier::external_body]
pub struct ExImageRawAny(ImageRawAny);

#[verifier::external_type_specification]
#[verifier::external_body]
pub struct ExImageYuv420(ImageYuv420);

#[verifier::external_type_specification]
#[verifier::external_body]
pub struct ExImageRgb888(ImageRgb888);

#[verifier::external_type_specification]
#[verifier::external_body]
pub struct ExImageRgba8888(ImageRgba8888);

/// make87's `ProtobufEncoder::new`: a stateless encoder for one message type.
pub assume_specification<T>[ ProtobufEncoder::<T>::new ]() -> ProtobufEncoder<T>;

/// A decoded text message.
pub struct TextMessage {
    pub header: Option<Header>,
    pub body: String,
}

/// A decoded JPEG message.
pub struct JpegMessage {
    pub header: Option<Header>,
    pub data: Vec<u8>,
}

/// A decoded raw image message; `image` is `None` when the message names no format.
pub struct ImageMessage {
    pub header: Option<Header>,
    pub image: Option<RawImage>,
}

/// What a payload decodes to as each schema, or `None` when it does not decode.
pub uninterp spec fn plain_text_decoding(b: Seq<u8>) -> Option<TextMessage>;

pub uninterp spec fn jpeg_decoding(b: Seq<u8>) -> Option<JpegMessage>;

pub uninterp spec fn raw_any_header_decoding(b: Seq<u8>) -> Option<Option<Header>>;

/// The pixel format, width, height and pixel bytes of an image.
pub type ImageParts = (PixelFormat, u32, u32, Vec<u8>);

pub uninterp spec fn raw_any_image_decoding(b: Seq<u8>) -> Option<Option<ImageParts>>;

pub uninterp spec fn yuv420_decoding(b: Seq<u8>) -> Option<ImageMessage>;

pub uninterp spec fn rgb888_decoding(b: Seq<u8>) -> Option<ImageMessage>;

pub uninterp spec fn rgba8888_decoding(b: Seq<u8>) -> Option<ImageMessage>;

/// Relies on make87's `ProtobufEncoder::<PlainText>::decode` (prost): the outcome
/// depends on the bytes alone.
#[verifier::external_body]
pub(crate) fn decode_plain_text(enc: &ProtobufEncoder<PlainText>, b: &[u8]) -> (r: Option<TextMessage>)
    ensures
        r == plain_text_decoding(b@),
{
    let m = enc.decode(b).ok()?;
    let header = m.header.map(|h| Header {
        entity_path: h.entity_path,
        timestamp: h.timestamp.map(|t| Timestamp { seconds: t.seconds, nanos: t.nanos }),
    });
    Some(TextMessage { header, body: m.body })
}

/// Relies on make87's `ProtobufEncoder::<ImageJpeg>::decode` (prost): the outcome
/// depends on the bytes alone.
#[verifier::external_body]
pub(crate) fn decode_jpeg(enc: &ProtobufEncoder<ImageJpeg>, b: &[u8]) -> (r: Option<JpegMessage>)
    ensures
        r == jpeg_decoding(b@),
{
    let m = enc.decode(b).ok()?;
    let header = m.header.map(|h| Header {
        entity_path: h.entity_path,
        timestamp: h.timestamp.map(|t| Timestamp { seconds: t.seconds, nanos: t.nanos }),
    });
    Some(JpegMessage { header, data: m.data })
}

/// Relies on make87's `ProtobufEncoder::<ImageRawAny>::decode` (prost): the outcome
/// depends on the bytes alone. This reads the message's header.
#[verifier::external_body]
pub(crate) fn decode_raw_any_header(enc: &ProtobufEncoder<ImageRawAny>, b: &[u8]) -> (r: Option<Option<Header>>)
    ensures
        r == raw_any_header_decoding(b@),
{
    let m = enc.decode(b).ok()?;
    Some(m.header.map(|h| Header {
        entity_path: h.entity_path,
        timestamp: h.timestamp.map(|t| Timestamp { seconds: t.seconds, nanos: t.nanos }),
    }))
}

/// Relies on make87's `ProtobufEncoder::<ImageRawAny>::decode` (prost): the outcome
/// depends on the bytes alone. This reads the image, whose variant gives the pixel format.
#[verifier::external_body]
pub(crate) fn decode_raw_any_image(enc: &ProtobufEncoder<ImageRawAny>, b: &[u8]) -> (r: Option<Option<ImageParts>>)
    ensures
        r == raw_any_image_decoding(b@),
        r is Some == raw_any_header_decoding(b@) is Some,
{
    let m = enc.decode(b).ok()?;
    Some(m.image.map(|i| match i {
        RawAnyImage::Rgb888(i) => (Rgb888, i.width, i.height, i.data),
        RawAnyImage::Rgba8888(i) => (Rgba8888, i.width, i.height, i.data),
        RawAnyImage::Yuv420(i) => (Yuv420, i.width, i.height, i.data),
        RawAnyImage::Yuv422(i) => (Yuv422, i.width, i.height, i.data),
        RawAnyImage::Yuv444(i) => (Yuv444, i.width, i.height, i.data),
        RawAnyImage::Nv12(i) => (Nv12, i.width, i.height, i.data),
    }))
}

/// Relies on make87's `ProtobufEncoder::<ImageYuv420>::decode` (prost): the outcome
/// depends on the bytes alone.
#[verifier::external_body]
pub(crate) fn decode_yuv420(enc: &ProtobufEncoder<ImageYuv420>, b: &[u8]) -> (r: Option<ImageMessage>)
    ensures
        r == yuv420_decoding(b@),
        r matches Some(m) ==> m.image matches Some(i) && i.format == PixelFormat::Yuv420,
{
    let m = enc.decode(b).ok()?;
    let header = m.header.map(|h| Header {
        entity_path: h.entity_path,
        timestamp: h.timestamp.map(|t| Timestamp { seconds: t.seconds, nanos: t.nanos }),
    });
    let image = RawImage { width: m.width, height: m.height, data: m.data, format: PixelFormat::Yuv420 };
    Some(ImageMessage { header, image: Some(image) })
}

/// Relies on make87's `ProtobufEncoder::<ImageRgb888>::decode` (prost): the outcome
/// depends on the bytes alone.
#[verifier::external_body]
pub(crate) fn decode_rgb888(enc: &ProtobufEncoder<ImageRgb888>, b: &[u8]) -> (r: Option<ImageMessage>)
    ensures
        r == rgb888_decoding(b@),
        r matches Some(m) ==> m.image matches Some(i) && i.format == PixelFormat::Rgb888,
{
    let m = enc.decode(b).ok()?;
    let header = m.header.map(|h| Header {
        entity_path: h.entity_path,
        timestamp: h.timestamp.map(|t| Timestamp { seconds: t.seconds, nanos: t.nanos }),
    });
    let image = RawImage { width: m.width, height: m.height, data: m.data, format: PixelFormat::Rgb888 };
    Some(ImageMessage { header, image: Some(image) })
}

/// Relies on make87's `ProtobufEncoder::<ImageRgba8888>::decode` (prost): the outcome
/// depends on the bytes alone.
#[verifier::external_body]
pub(crate) fn decode_rgba8888(enc: &ProtobufEncoder<ImageRgba8888>, b: &[u8]) -> (r: Option<ImageMessage>)
    ensures
        r == rgba8888_decoding(b@),
        r matches Some(m) ==> m.image matches Some(i) && i.format == PixelFormat::Rgba8888,
{
    let m = enc.decode(b).ok()?;
    let header = m.header.map(|h| Header {
        entity_path: h.entity_path,
        timestamp: h.timestamp.map(|t| Timestamp { seconds: t.seconds, nanos: t.nanos }),
    });
    let image = RawImage { width: m.width, height: m.height, data: m.data, format: PixelFormat::Rgba8888 };
    Some(ImageMessage { header, image: Some(image) })
}

} // verus!
