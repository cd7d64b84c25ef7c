//! One handler per schema: it decodes a payload and turns the message into what is
//! forwarded to the sink, addressed by the message's envelope.

use vstd::prelude::*;
use make87::encodings::ProtobufEncoder;
use make87_messages::image::compressed::ImageJpeg;
use make87_messages::image::uncompressed::{ImageRawAny, ImageRgb888, ImageRgba8888, ImageYuv420};
use make87_messages::text::PlainText;
use crate::decode::{
    decode_jpeg, decode_plain_text, decode_raw_any_header, decode_raw_any_image, decode_rgb888,
    decode_rgba8888, decode_yuv420, jpeg_decoding, plain_text_decoding, raw_any_header_decoding,
    raw_any_image_decoding, rgb888_decoding, rgba8888_decoding, yuv420_decoding, ImageMessage,
    ImageParts, JpegMessage, TextMessage,
};
use crate::compress::{
    compress_layout_error, encode_compressed, encoder_pixels, input_of, jpeg_encoding,
    subsampling_of, CompressError, JPEG_MAX_DIMENSION,
};
use crate::envelope::{decode_envelope, envelope_path, envelope_time, Header, Timestamp};
use crate::pixels::{
    compressed_jpeg, is_normalization_of, jpeg_media_type, normalize, normalize_error,
    CompressedImage, ImageTensor, NormalizeError, RawImage,
};

verus! {

/// The schemas that this bridge routes.
#[derive(Clone, Copy, Debug, PartialEq, Eq, Structural)]
pub enum MessageKind {
    TextPlainText,
    ImageCompressedJpeg,
    ImageRawAny,
    ImageYuv420,
    ImageRgb888,
    ImageRgba8888,
    Boxes2DAxisAligned,
}

/// What is forwarded to the sink for one message.
#[derive(Debug)]
pub enum Artifact {
    Text(String),
    Tensor(ImageTensor),
    Compressed(CompressedImage),
}

/// One artifact, with the path and the time under which it is forwarded.
#[derive(Debug)]
pub struct Forward {
    pub path: String,
    pub time: Timestamp,
    pub artifact: Artifact,
}

/// Why a message was skipped.
#[derive(Clone, Copy, Debug, PartialEq, Eq, Structural)]
pub enum HandleError {
    /// The payload does not decode as the handler's schema.
    Decode,
    /// A raw image message that names no pixel format.
    MissingImage,
    /// A pixel buffer too large to convert in this address space.
    TooLarge,
    /// The image could not be normalized.
    Normalize(NormalizeError),
    /// The image could not be encoded to JPEG.
    Compress(CompressError),
}

/// `f` is addressed by the envelope of a message with header `h` received at `now`.
pub open spec fn addressed(f: Forward, h: Option<Header>, now: Timestamp) -> bool {
    f.path@ == envelope_path(h) && f.time == envelope_time(h, now)
}

pub open spec fn is_text_forward(f: Forward, m: TextMessage, now: Timestamp) -> bool {
    &&& addressed(f, m.header, now)
    &&& f.artifact matches Artifact::Text(s) && s@ == m.body@
}

pub open spec fn is_jpeg_forward(f: Forward, m: JpegMessage, now: Timestamp) -> bool {
    &&& addressed(f, m.header, now)
    &&& f.artifact matches Artifact::Compressed(c) && c.data@ == m.data@ && c.media_type@
        == jpeg_media_type()
}

pub open spec fn is_tensor_forward(f: Forward, img: RawImage, h: Option<Header>, now: Timestamp) -> bool {
    &&& addressed(f, h, now)
    &&& f.artifact matches Artifact::Tensor(t) && is_normalization_of(&t, &img)
}

/// What handling a decoded raw image message gives.
pub open spec fn image_outcome(
    r: Result<Forward, HandleError>,
    m: ImageMessage,
    now: Timestamp,
) -> bool {
    match m.image {
        None => r == Err::<Forward, HandleError>(HandleError::MissingImage),
        Some(img) => if img.data@.len() * 2 > usize::MAX {
            r == Err::<Forward, HandleError>(HandleError::TooLarge)
        } else {
            match normalize_error(&img) {
                Some(e) => r == Err::<Forward, HandleError>(HandleError::Normalize(e)),
                None => r matches Ok(f) && is_tensor_forward(f, img, m.header, now),
            }
        },
    }
}

/// The raw image that decoded image parts describe.
pub open spec fn raw_image_of(p: Option<ImageParts>) -> Option<RawImage> {
    match p {
        Some((format, width, height, data)) => Some(RawImage { width, height, data, format }),
        None => None,
    }
}

/// Assembles a raw image from its decoded parts.
pub fn image_from_parts(p: Option<ImageParts>) -> (r: Option<RawImage>)
    ensures
        r == raw_image_of(p),
{
    match p {
        Some((format, width, height, data)) => Some(RawImage { width, height, data, format }),
        None => None,
    }
}

/// Forwards the body of a text message as a text document.
pub fn forward_text(m: TextMessage, now: Timestamp) -> (f: Forward)
    ensures
        is_text_forward(f, m, now),
{
    let (path, time) = decode_envelope(m.header, now);
    Forward { path, time, artifact: Artifact::Text(m.body) }
}

/// Forwards the bytes of a JPEG message verbatim, tagged `image/jpeg`.
pub fn forward_jpeg(m: JpegMessage, now: Timestamp) -> (f: Forward)
    ensures
        is_jpeg_forward(f, m, now),
{
    let (path, time) = decode_envelope(m.header, now);
    Forward { path, time, artifact: Artifact::Compressed(compressed_jpeg(m.data)) }
}

/// Normalizes the image of a raw image message into a tensor and forwards it.
pub fn forward_image(m: ImageMessage, now: Timestamp) -> (r: Result<Forward, HandleError>)
    ensures
        image_outcome(r, m, now),
{
    let (path, time) = decode_envelope(m.header, now);
    match m.image {
        None => Err(HandleError::MissingImage),
        Some(img) => {
            if img.data.len() > usize::MAX / 2 {
                return Err(HandleError::TooLarge);
            }
            match normalize(img) {
                Err(e) => Err(HandleError::Normalize(e)),
                Ok(t) => Ok(Forward { path, time, artifact: Artifact::Tensor(t) }),
            }
        },
    }
}

/// What handling a decoded raw image message on the JPEG path gives.
pub open spec fn compressed_outcome(
    r: Result<Forward, HandleError>,
    m: ImageMessage,
    now: Timestamp,
    quality: u8,
) -> bool {
    match m.image {
        None => r == Err::<Forward, HandleError>(HandleError::MissingImage),
        Some(img) => if img.data@.len() * 2 > usize::MAX {
            r == Err::<Forward, HandleError>(HandleError::TooLarge)
        } else {
            match compress_layout_error(img.format, img.width, img.height, img.data@.len() as int) {
                Some(e) => r == Err::<Forward, HandleError>(
                    HandleError::Compress(CompressError::Layout(e)),
                ),
                None => if img.width > JPEG_MAX_DIMENSION || img.height > JPEG_MAX_DIMENSION {
                    r == Err::<Forward, HandleError>(HandleError::Compress(CompressError::TooLarge))
                } else {
                    match jpeg_encoding(
                        encoder_pixels(&img),
                        img.width as u16,
                        img.height as u16,
                        input_of(img.format),
                        subsampling_of(img.format),
                        quality,
                    ) {
                        Some(bytes) => r matches Ok(f) && is_encoded_forward(f, bytes, m.header, now),
                        None => r == Err::<Forward, HandleError>(
                            HandleError::Compress(CompressError::Encoding),
                        ),
                    }
                }
            }
        },
    }
}

pub open spec fn is_encoded_forward(f: Forward, bytes: Seq<u8>, h: Option<Header>, now: Timestamp) -> bool {
    &&& addressed(f, h, now)
    &&& f.artifact matches Artifact::Compressed(c) && c.data@ == bytes && c.media_type@
        == jpeg_media_type()
}

/// Encodes the image of a raw image message straight to JPEG and forwards it: the
/// path for when bandwidth to the sink is constrained.
pub fn forward_image_compressed(m: ImageMessage, now: Timestamp, quality: u8) -> (r: Result<
    Forward,
    HandleError,
>)
    ensures
        compressed_outcome(r, m, now, quality),
{
    let (path, time) = decode_envelope(m.header, now);
    match m.image {
        None => Err(HandleError::MissingImage),
        Some(img) => {
            if img.data.len() > usize::MAX / 2 {
                return Err(HandleError::TooLarge);
            }
            match encode_compressed(&img, quality) {
                Err(e) => Err(HandleError::Compress(e)),
                Ok(c) => Ok(Forward { path, time, artifact: Artifact::Compressed(c) }),
            }
        },
    }
}

pub struct TextPlainTextHandler {
    encoder: ProtobufEncoder<PlainText>,
}

impl TextPlainTextHandler {
    pub fn new() -> Self {
        TextPlainTextHandler { encoder: ProtobufEncoder::new() }
    }

    /// Decodes a plain-text payload and forwards its body.
    pub fn handle_message(&self, payload: &[u8], now: Timestamp) -> (r: Result<Forward, HandleError>)
        ensures
            match plain_text_decoding(payload@) {
                None => r == Err::<Forward, HandleError>(HandleError::Decode),
                Some(m) => r matches Ok(f) && is_text_forward(f, m, now),
            },
    {
        match decode_plain_text(&self.encoder, payload) {
            None => Err(HandleError::Decode),
            Some(m) => Ok(forward_text(m, now)),
        }
    }
}

pub struct ImageCompressedJpegHandler {
    encoder: ProtobufEncoder<ImageJpeg>,
}

impl ImageCompressedJpegHandler {
    pub fn new() -> Self {
        ImageCompressedJpegHandler { encoder: ProtobufEncoder::new() }
    }

    /// Decodes a JPEG payload and forwards its bytes verbatim.
    pub fn handle_message(&self, payload: &[u8], now: Timestamp) -> (r: Result<Forward, HandleError>)
        ensures
            match jpeg_decoding(payload@) {
                None => r == Err::<Forward, HandleError>(HandleError::Decode),
                Some(m) => r matches Ok(f) && is_jpeg_forward(f, m, now),
            },
    {
        match decode_jpeg(&self.encoder, payload) {
            None => Err(HandleError::Decode),
            Some(m) => Ok(forward_jpeg(m, now)),
        }
    }
}

/// Handles raw images of any pixel format, tagged in the message.
pub struct ImageRawAnyHandler {
    encoder: ProtobufEncoder<ImageRawAny>,
}

impl ImageRawAnyHandler {
    pub fn new() -> Self {
        ImageRawAnyHandler { encoder: ProtobufEncoder::new() }
    }

    pub fn handle_message(&self, payload: &[u8], now: Timestamp) -> (r: Result<Forward, HandleError>)
        ensures
            match (raw_any_header_decoding(payload@), raw_any_image_decoding(payload@)) {
                (Some(header), Some(parts)) => image_outcome(
                    r,
                    ImageMessage { header, image: raw_image_of(parts) },
                    now,
                ),
                _ => r == Err::<Forward, HandleError>(HandleError::Decode),
            },
    {
        let header = decode_raw_any_header(&self.encoder, payload);
        let parts = decode_raw_any_image(&self.encoder, payload);
        match (header, parts) {
            (Some(header), Some(parts)) => {
                let image = image_from_parts(parts);
                forward_image(ImageMessage { header, image }, now)
            },
            _ => Err(HandleError::Decode),
        }
    }

    /// Decodes a raw image payload and forwards the image encoded to JPEG.
    pub fn handle_message_compressed(&self, payload: &[u8], now: Timestamp, quality: u8) -> (r:
        Result<Forward, HandleError>)
        ensures
            match (raw_any_header_decoding(payload@), raw_any_image_decoding(payload@)) {
                (Some(header), Some(parts)) => compressed_outcome(
                    r,
                    ImageMessage { header, image: raw_image_of(parts) },
                    now,
                    quality,
                ),
                _ => r == Err::<Forward, HandleError>(HandleError::Decode),
            },
    {
        let header = decode_raw_any_header(&self.encoder, payload);
        let parts = decode_raw_any_image(&self.encoder, payload);
        match (header, parts) {
            (Some(header), Some(parts)) => {
                let image = image_from_parts(parts);
                forward_image_compressed(ImageMessage { header, image }, now, quality)
            },
            _ => Err(HandleError::Decode),
        }
    }
}

pub struct ImageYuv420Handler {
    encoder: ProtobufEncoder<ImageYuv420>,
}

impl ImageYuv420Handler {
    pub fn new() -> Self {
        ImageYuv420Handler { encoder: ProtobufEncoder::new() }
    }

    pub fn handle_message(&self, payload: &[u8], now: Timestamp) -> (r: Result<Forward, HandleError>)
        ensures
            match yuv420_decoding(payload@) {
                None => r == Err::<Forward, HandleError>(HandleError::Decode),
                Some(m) => image_outcome(r, m, now),
            },
    {
        match decode_yuv420(&self.encoder, payload) {
            None => Err(HandleError::Decode),
            Some(m) => forward_image(m, now),
        }
    }
}

pub struct ImageRgb888Handler {
    encoder: ProtobufEncoder<ImageRgb888>,
}

impl ImageRgb888Handler {
    pub fn new() -> Self {
        ImageRgb888Handler { encoder: ProtobufEncoder::new() }
    }

    pub fn handle_message(&self, payload: &[u8], now: Timestamp) -> (r: Result<Forward, HandleError>)
        ensures
            match rgb888_decoding(payload@) {
                None => r == Err::<Forward, HandleError>(HandleError::Decode),
                Some(m) => image_outcome(r, m, now),
            },
    {
        match decode_rgb888(&self.encoder, payload) {
            None => Err(HandleError::Decode),
            Some(m) => forward_image(m, now),
        }
    }
}

pub struct ImageRgba8888Handler {
    encoder: ProtobufEncoder<ImageRgba8888>,
}

impl ImageRgba8888Handler {
    pub fn new() -> Self {
        ImageRgba8888Handler { encoder: ProtobufEncoder::new() }
    }

    pub fn handle_message(&self, payload: &[u8], now: Timestamp) -> (r: Result<Forward, HandleError>)
        ensures
            match rgba8888_decoding(payload@) {
                None => r == Err::<Forward, HandleError>(HandleError::Decode),
                Some(m) => image_outcome(r, m, now),
            },
    {
        match decode_rgba8888(&self.encoder, payload) {
            None => Err(HandleError::Decode),
            Some(m) => forward_image(m, now),
        }
    }
}

/// The handler of axis-aligned detection boxes. Box geometry is floating point,
/// so the decoding and the mapping to shapes happen around this library.
pub struct Boxes2DAxisAlignedHandler {}

impl Boxes2DAxisAlignedHandler {
    pub fn new() -> Self {
        Boxes2DAxisAlignedHandler {  }
    }
}

/// A handler for one schema.
pub enum MessageHandler {
    TextPlainText(TextPlainTextHandler),
    ImageCompressedJpeg(ImageCompressedJpegHandler),
    ImageRawAny(ImageRawAnyHandler),
    ImageYuv420(ImageYuv420Handler),
    ImageRgb888(ImageRgb888Handler),
    ImageRgba8888(ImageRgba8888Handler),
    Boxes2DAxisAligned(Boxes2DAxisAlignedHandler),
}

impl MessageHandler {
    pub open spec fn kind(&self) -> MessageKind {
        match self {
            MessageHandler::TextPlainText(_) => MessageKind::TextPlainText,
            MessageHandler::ImageCompressedJpeg(_) => MessageKind::ImageCompressedJpeg,
            MessageHandler::ImageRawAny(_) => MessageKind::ImageRawAny,
            MessageHandler::ImageYuv420(_) => MessageKind::ImageYuv420,
            MessageHandler::ImageRgb888(_) => MessageKind::ImageRgb888,
            MessageHandler::ImageRgba8888(_) => MessageKind::ImageRgba8888,
            MessageHandler::Boxes2DAxisAligned(_) => MessageKind::Boxes2DAxisAligned,
        }
    }

    /// A new handler of the given kind.
    pub fn for_kind(kind: MessageKind) -> (r: Self)
        ensures
            r.kind() == kind,
    {
        match kind {
            MessageKind::TextPlainText => MessageHandler::TextPlainText(TextPlainTextHandler::new()),
            MessageKind::ImageCompressedJpeg => MessageHandler::ImageCompressedJpeg(
                ImageCompressedJpegHandler::new(),
            ),
            MessageKind::ImageRawAny => MessageHandler::ImageRawAny(ImageRawAnyHandler::new()),
            MessageKind::ImageYuv420 => MessageHandler::ImageYuv420(ImageYuv420Handler::new()),
            MessageKind::ImageRgb888 => MessageHandler::ImageRgb888(ImageRgb888Handler::new()),
            MessageKind::ImageRgba8888 => MessageHandler::ImageRgba8888(ImageRgba8888Handler::new()),
            MessageKind::Boxes2DAxisAligned => MessageHandler::Boxes2DAxisAligned(
                Boxes2DAxisAlignedHandler::new(),
            ),
        }
    }

    /// The kind of this handler.
    pub fn message_kind(&self) -> (r: MessageKind)
        ensures
            r == self.kind(),
    {
        match self {
            MessageHandler::TextPlainText(_) => MessageKind::TextPlainText,
            MessageHandler::ImageCompressedJpeg(_) => MessageKind::ImageCompressedJpeg,
            MessageHandler::ImageRawAny(_) => MessageKind::ImageRawAny,
            MessageHandler::ImageYuv420(_) => MessageKind::ImageYuv420,
            MessageHandler::ImageRgb888(_) => MessageKind::ImageRgb888,
            MessageHandler::ImageRgba8888(_) => MessageKind::ImageRgba8888,
            MessageHandler::Boxes2DAxisAligned(_) => MessageKind::Boxes2DAxisAligned,
        }
    }
}

} // verus!
