//! The alternate image path: a raw image is encoded straight to JPEG, with the
//! chroma subsampling of its source format, instead of being converted to an RGB
//! tensor. YUV input goes to the encoder as interleaved YCbCr at full resolution.

use vstd::prelude::*;
use vstd::arithmetic::div_mod::*;
use vstd::string::*;
use jpeg_encoder::{ColorType, Encoder, SamplingFactor};
use crate::pixels::{
    chroma_index, expected_len, jpeg_media_type, lemma_chroma_index_bound, lemma_even_dims,
    nv12_planar, split_nv12, CompressedImage, NormalizeError, PixelFormat, RawImage,
};

verus! {

/// The pixel layout handed to the JPEG encoder.
#[derive(Clone, Copy, Debug, PartialEq, Eq, Structural)]
pub enum JpegInput {
    Rgb,
    Rgba,
    Ycbcr,
}

/// The chroma subsampling of the encoded stream.
#[derive(Clone, Copy, Debug, PartialEq, Eq, Structural)]
pub enum Subsampling {
    /// Full-resolution chroma.
    S444,
    /// Chroma at half horizontal resolution.
    S422,
    /// Chroma at half resolution in both directions.
    S420,
}

/// Why a raw image could not be encoded to JPEG.
#[derive(Clone, Copy, Debug, PartialEq, Eq, Structural)]
pub enum CompressError {
    /// The pixel buffer does not fit the format and dimensions.
    Layout(NormalizeError),
    /// A dimension does not fit the 16 bits of a JPEG header.
    TooLarge,
    /// The encoder refused the image (a zero dimension).
    Encoding,
}

/// The bytes that jpeg-encoder writes for `pixels` of the given layout, or `None`
/// when it refuses them.
pub uninterp spec fn jpeg_encoding(
    pixels: Seq<u8>,
    width: u16,
    height: u16,
    input: JpegInput,
    sampling: Subsampling,
    quality: u8,
) -> Option<Seq<u8>>;

pub open spec fn bytes_per_pixel(input: JpegInput) -> int {
    match input {
        JpegInput::Rgba => 4,
        _ => 3,
    }
}

/// Relies on jpeg-encoder's `Encoder::encode` writing into a `Vec`: the stream
/// depends on its arguments alone, and the call fails exactly when a dimension is
/// zero or the pixel data is shorter than `width * height` pixels.
#[verifier::external_body]
fn encode_jpeg(
    pixels: &[u8],
    width: u16,
    height: u16,
    input: JpegInput,
    sampling: Subsampling,
    quality: u8,
) -> (r: Option<Vec<u8>>)
    ensures
        match jpeg_encoding(pixels@, width, height, input, sampling, quality) {
            Some(bytes) => r matches Some(v) && v@ == bytes,
            None => r is None,
        },
        r is Some <==> (width > 0 && height > 0 && pixels@.len() >= width * height
            * bytes_per_pixel(input)),
{
    let color = match input {
        JpegInput::Rgb => ColorType::Rgb,
        JpegInput::Rgba => ColorType::Rgba,
        JpegInput::Ycbcr => ColorType::Ycbcr,
    };
    let factor = match sampling {
        Subsampling::S444 => SamplingFactor::F_1_1,
        Subsampling::S422 => SamplingFactor::F_2_1,
        Subsampling::S420 => SamplingFactor::F_2_2,
    };
    let mut out = Vec::new();
    let mut encoder = Encoder::new(&mut out, quality);
    encoder.set_sampling_factor(factor);
    encoder.encode(pixels, width, height, color).ok()?;
    Some(out)
}

pub open spec fn input_of(f: PixelFormat) -> JpegInput {
    match f {
        PixelFormat::Rgb888 => JpegInput::Rgb,
        PixelFormat::Rgba8888 => JpegInput::Rgba,
        _ => JpegInput::Ycbcr,
    }
}

pub open spec fn subsampling_of(f: PixelFormat) -> Subsampling {
    match f {
        PixelFormat::Yuv420 => Subsampling::S420,
        PixelFormat::Nv12 => Subsampling::S420,
        PixelFormat::Yuv422 => Subsampling::S422,
        _ => Subsampling::S444,
    }
}

/// The length of each chroma plane of a planar YUV image with `n` pixels.
pub open spec fn chroma_plane_len(f: PixelFormat, n: int) -> int {
    match f {
        PixelFormat::Yuv422 => n / 2,
        PixelFormat::Yuv444 => n,
        _ => n / 4,
    }
}

/// The chroma sample that pixel `i` of a planar YUV image of width `w` reads.
pub open spec fn chroma_sample(f: PixelFormat, w: int, i: int) -> int {
    match f {
        PixelFormat::Yuv422 => (i / w) * (w / 2) + (i % w) / 2,
        PixelFormat::Yuv444 => i,
        _ => chroma_index(w, i),
    }
}

/// A planar YUV buffer of format `f` as interleaved full-resolution YCbCr.
pub open spec fn ycbcr_interleaved(d: Seq<u8>, f: PixelFormat, w: int, h: int) -> Seq<u8> {
    let n = w * h;
    let q = chroma_plane_len(f, n);
    Seq::new(
        (3 * n) as nat,
        |k: int|
            if k % 3 == 0 {
                d[k / 3]
            } else if k % 3 == 1 {
                d[n + chroma_sample(f, w, k / 3)]
            } else {
                d[n + q + chroma_sample(f, w, k / 3)]
            },
    )
}

/// What a raw image of format `f`, `width` by `height`, with `len` bytes lacks to be
/// encoded: the right byte count, and an even width (and height, for 4:2:0).
pub open spec fn compress_layout_error(f: PixelFormat, width: u32, height: u32, len: int) -> Option<
    NormalizeError,
> {
    if len != expected_len(f, width, height) {
        Some(
            NormalizeError::SizeMismatch {
                expected: expected_len(f, width, height) as u128,
                actual: len as usize,
            },
        )
    } else if ((f is Yuv420 || f is Nv12) && (width % 2 != 0 || height % 2 != 0)) || (
    f is Yuv422 && width % 2 != 0) {
        Some(NormalizeError::OddDimensions { width, height })
    } else {
        None
    }
}

/// The pixels that the encoder gets for a well-formed raw image.
pub open spec fn encoder_pixels(img: &RawImage) -> Seq<u8> {
    let w = img.width as int;
    let h = img.height as int;
    match img.format {
        PixelFormat::Rgb888 => img.data@,
        PixelFormat::Rgba8888 => img.data@,
        PixelFormat::Nv12 => ycbcr_interleaved(nv12_planar(img.data@, w, h), PixelFormat::Yuv420, w, h),
        f => ycbcr_interleaved(img.data@, f, w, h),
    }
}

proof fn lemma_chroma_sample_bound(f: PixelFormat, w: int, h: int, i: int)
    requires
        f is Yuv420 || f is Yuv422 || f is Yuv444,
        w > 0,
        h >= 0,
        w % 2 == 0,
        f is Yuv420 ==> h % 2 == 0,
        0 <= i < w * h,
    ensures
        0 <= chroma_sample(f, w, i) < chroma_plane_len(f, w * h),
        0 <= i / w < h,
{
    let row = i / w;
    let col = i % w;
    lemma_fundamental_div_mod(i, w);
    lemma_div_pos_is_pos(i, w);
    assert(row < h) by (nonlinear_arith)
        requires
            i == w * row + col,
            0 <= col,
            i < w * h,
            w > 0,
    ;
    if f is Yuv420 {
        lemma_chroma_index_bound(w, h, i);
    } else if f is Yuv422 {
        let a = w / 2;
        let cc = col / 2;
        assert(row * a + cc < a * h && 0 <= row * a) by (nonlinear_arith)
            requires
                0 <= row < h,
                0 <= cc < a,
        ;
        assert(w * h == 2 * (a * h)) by (nonlinear_arith)
            requires
                w == 2 * a,
        ;
    }
}

/// Interleaves a planar 4:2:0, 4:2:2 or 4:4:4 buffer into full-resolution YCbCr.
#[verifier::rlimit(30)]
fn interleave_ycbcr(d: &Vec<u8>, f: PixelFormat, width: u32, height: u32) -> (r: Vec<u8>)
    requires
        f is Yuv420 || f is Yuv422 || f is Yuv444,
        compress_layout_error(f, width, height, d@.len() as int) is None,
        d@.len() * 2 <= usize::MAX,
    ensures
        r@ == ycbcr_interleaved(d@, f, width as int, height as int),
{
    let len = d.len();
    let w = width as usize;
    let h = height as usize;
    proof {
        if f is Yuv420 {
            lemma_even_dims(w as int, h as int);
        }
        assert(w * h >= 0) by (nonlinear_arith)
            requires
                w >= 0,
                h >= 0,
        ;
        if f is Yuv422 {
            let a = w / 2;
            assert(w * h == 2 * (a * h)) by (nonlinear_arith)
                requires
                    w == 2 * a,
            ;
        }
    }
    assert(w * h <= len);
    let n: usize = w * h;
    let q: usize = match f {
        PixelFormat::Yuv422 => n / 2,
        PixelFormat::Yuv444 => n,
        _ => n / 4,
    };
    assert(len == n + 2 * q);
    let mut out: Vec<u8> = Vec::new();
    let mut i: usize = 0;
    while i < n
        invariant
            f is Yuv420 || f is Yuv422 || f is Yuv444,
            w == width,
            h == height,
            w % 2 == 0 || f is Yuv444,
            f is Yuv420 ==> h % 2 == 0,
            n == w * h,
            q == chroma_plane_len(f, n as int),
            len == d@.len(),
            len == n + 2 * q,
            len * 2 <= usize::MAX,
            i <= n,
            out@.len() == 3 * i,
            forall|k: int|
                0 <= k < 3 * i ==> out@[k] == ycbcr_interleaved(d@, f, w as int, h as int)[k],
        decreases n - i,
    {
        proof {
            if f is Yuv444 {
                assert(chroma_sample(f, w as int, i as int) == i);
            } else {
                lemma_chroma_sample_bound(f, w as int, h as int, i as int);
            }
        }
        let ci: usize = match f {
            PixelFormat::Yuv422 => (i / w) * (w / 2) + (i % w) / 2,
            PixelFormat::Yuv444 => i,
            _ => (i / w / 2) * (w / 2) + (i % w) / 2,
        };
        assert(ci == chroma_sample(f, w as int, i as int));
        let ghost before = out@;
        out.push(d[i]);
        out.push(d[n + ci]);
        out.push(d[n + q + ci]);
        proof {
            let ii = i as int;
            assert forall|k: int| 0 <= k < 3 * (ii + 1) implies out@[k] == ycbcr_interleaved(
                d@,
                f,
                w as int,
                h as int,
            )[k] by {
                if k >= 3 * ii {
                    assert(k / 3 == ii);
                    assert(k % 3 == k - 3 * ii);
                } else {
                    assert(out@[k] == before[k]);
                }
            }
        }
        i = i + 1;
    }
    proof {
        assert(out@ =~= ycbcr_interleaved(d@, f, w as int, h as int));
    }
    out
}

fn check_compress_layout(f: PixelFormat, width: u32, height: u32, len: usize) -> (r: Option<
    NormalizeError,
>)
    ensures
        r == compress_layout_error(f, width, height, len as int),
{
    let w = width as u128;
    let h = height as u128;
    assert(w * h <= 0xffff_ffffu128 * 0xffff_ffffu128) by (nonlinear_arith)
        requires
            w <= 0xffff_ffffu128,
            h <= 0xffff_ffffu128,
    ;
    let n = w * h;
    let expected: u128 = match f {
        PixelFormat::Rgb888 => n * 3,
        PixelFormat::Rgba8888 => n * 4,
        PixelFormat::Yuv422 => n * 2,
        PixelFormat::Yuv444 => n * 3,
        _ => n * 3 / 2,
    };
    if expected != len as u128 {
        return Some(NormalizeError::SizeMismatch { expected, actual: len });
    }
    let half_both = matches!(f, PixelFormat::Yuv420) || matches!(f, PixelFormat::Nv12);
    let half_wide = matches!(f, PixelFormat::Yuv422);
    if (half_both && (width % 2 != 0 || height % 2 != 0)) || (half_wide && width % 2 != 0) {
        return Some(NormalizeError::OddDimensions { width, height });
    }
    None
}

/// The encoder input for a raw image: its pixels as the encoder takes them (RGB and
/// RGBA as they are, YUV as interleaved YCbCr), their layout, and the chroma
/// subsampling of the source format.
pub fn jpeg_encoder_input(image: &RawImage) -> (r: Result<(Vec<u8>, JpegInput, Subsampling), CompressError>)
    requires
        image.data@.len() * 2 <= usize::MAX,
    ensures
        match compress_layout_error(image.format, image.width, image.height, image.data@.len() as int) {
            Some(e) => r == Err::<(Vec<u8>, JpegInput, Subsampling), CompressError>(
                CompressError::Layout(e),
            ),
            None => r matches Ok(t) && t.0@ == encoder_pixels(image) && t.1 == input_of(image.format)
                && t.2 == subsampling_of(image.format),
        },
{
    let width = image.width;
    let height = image.height;
    if let Some(e) = check_compress_layout(image.format, width, height, image.data.len()) {
        return Err(CompressError::Layout(e));
    }
    match image.format {
        PixelFormat::Rgb888 => Ok((image.data.clone(), JpegInput::Rgb, Subsampling::S444)),
        PixelFormat::Rgba8888 => Ok((image.data.clone(), JpegInput::Rgba, Subsampling::S444)),
        PixelFormat::Nv12 => {
            proof {
                lemma_even_dims(width as int, height as int);
            }
            let planar = split_nv12(&image.data, width, height);
            let p = interleave_ycbcr(&planar, PixelFormat::Yuv420, width, height);
            Ok((p, JpegInput::Ycbcr, Subsampling::S420))
        },
        PixelFormat::Yuv420 => Ok(
            (
                interleave_ycbcr(&image.data, PixelFormat::Yuv420, width, height),
                JpegInput::Ycbcr,
                Subsampling::S420,
            ),
        ),
        PixelFormat::Yuv422 => Ok(
            (
                interleave_ycbcr(&image.data, PixelFormat::Yuv422, width, height),
                JpegInput::Ycbcr,
                Subsampling::S422,
            ),
        ),
        PixelFormat::Yuv444 => Ok(
            (
                interleave_ycbcr(&image.data, PixelFormat::Yuv444, width, height),
                JpegInput::Ycbcr,
                Subsampling::S444,
            ),
        ),
    }
}

/// The largest width or height that a JPEG header holds.
pub const JPEG_MAX_DIMENSION: u32 = 65535;

/// Encodes a raw image of any format straight to JPEG at the given quality, with
/// 4:2:0 subsampling for YUV420 and NV12, 4:2:2 for YUV422 and 4:4:4 otherwise.
pub fn encode_compressed(image: &RawImage, quality: u8) -> (r: Result<CompressedImage, CompressError>)
    requires
        image.data@.len() * 2 <= usize::MAX,
    ensures
        match compress_layout_error(image.format, image.width, image.height, image.data@.len() as int) {
            Some(e) => r == Err::<CompressedImage, CompressError>(CompressError::Layout(e)),
            None => if image.width > JPEG_MAX_DIMENSION || image.height > JPEG_MAX_DIMENSION {
                r == Err::<CompressedImage, CompressError>(CompressError::TooLarge)
            } else {
                match jpeg_encoding(
                    encoder_pixels(image),
                    image.width as u16,
                    image.height as u16,
                    input_of(image.format),
                    subsampling_of(image.format),
                    quality,
                ) {
                    Some(bytes) => r matches Ok(c) && c.data@ == bytes && c.media_type@
                        == jpeg_media_type(),
                    None => r == Err::<CompressedImage, CompressError>(CompressError::Encoding),
                }
            },
        },
        compress_layout_error(image.format, image.width, image.height, image.data@.len() as int)
            is None && 0 < image.width <= JPEG_MAX_DIMENSION && 0 < image.height
            <= JPEG_MAX_DIMENSION ==> r is Ok,
{
    let (pixels, input, sampling) = jpeg_encoder_input(image)?;
    if image.width > JPEG_MAX_DIMENSION || image.height > JPEG_MAX_DIMENSION {
        return Err(CompressError::TooLarge);
    }
    let w = image.width as u16;
    let h = image.height as u16;
    proof {
        let n = image.width * image.height;
        if input is Rgba {
            assert(pixels@.len() == n * 4);
        } else {
            assert(pixels@.len() == n * 3);
        }
    }
    match encode_jpeg(pixels.as_slice(), w, h, input, sampling, quality) {
        Some(data) => Ok(CompressedImage { media_type: String::from_str("image/jpeg"), data }),
        None => Err(CompressError::Encoding),
    }
}

} // verus!
