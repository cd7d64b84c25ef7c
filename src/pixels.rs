//! The pixel normalization engine: raw images of a tagged pixel format become one
//! renderable tensor, and compressed images pass through with their media type.

use vstd::prelude::*;
use vstd::arithmetic::div_mod::*;
use crate::color::{yuv_to_rgb, yuv_to_rgb_spec, lemma_neutral_chroma_is_gray};

verus! {

/// How the bytes of a raw image are laid out.
#[derive(Clone, Copy, Debug, PartialEq, Eq, Structural)]
pub enum PixelFormat {
    Rgb888,
    Rgba8888,
    Yuv420,
    Nv12,
    Yuv422,
    Yuv444,
}

/// A raw image as it arrives: dimensions, pixel bytes and their layout.
#[derive(Debug)]
pub struct RawImage {
    pub width: u32,
    pub height: u32,
    pub data: Vec<u8>,
    pub format: PixelFormat,
}

/// The color model that a tensor is tagged with.
#[derive(Clone, Copy, Debug, PartialEq, Eq, Structural)]
pub enum ColorModel {
    Rgb,
    Rgba,
}

/// A dense `(height, width, channels)` pixel tensor with explicit strides.
#[derive(Debug)]
pub struct ImageTensor {
    pub height: u32,
    pub width: u32,
    pub channels: u32,
    pub color_model: ColorModel,
    pub row_stride: u64,
    pub col_stride: u64,
    pub elem_stride: u64,
    pub data: Vec<u8>,
}

/// Why a raw image could not be normalized.
#[derive(Clone, Copy, Debug, PartialEq, Eq, Structural)]
pub enum NormalizeError {
    /// The pixel buffer does not hold the byte count that the format asks for.
    SizeMismatch { expected: u128, actual: usize },
    /// A 4:2:0 layout needs an even width and height.
    OddDimensions { width: u32, height: u32 },
    /// A recognized format that this engine does not convert.
    Unsupported(PixelFormat),
}

pub open spec fn channels_of(m: ColorModel) -> u32 {
    match m {
        ColorModel::Rgb => 3,
        ColorModel::Rgba => 4,
    }
}

pub open spec fn is_supported(f: PixelFormat) -> bool {
    !(f is Yuv422 || f is Yuv444)
}

pub open spec fn is_chroma_subsampled(f: PixelFormat) -> bool {
    f is Yuv420 || f is Nv12
}

/// The byte count that a `width` by `height` image of format `f` takes.
pub open spec fn expected_len(f: PixelFormat, width: u32, height: u32) -> int {
    let n = width * height;
    match f {
        PixelFormat::Rgb888 => n * 3,
        PixelFormat::Rgba8888 => n * 4,
        PixelFormat::Yuv420 => n * 3 / 2,
        PixelFormat::Nv12 => n * 3 / 2,
        PixelFormat::Yuv422 => n * 2,
        PixelFormat::Yuv444 => n * 3,
    }
}

/// The chroma sample that pixel `i` of a 4:2:0 image of width `w` reads: the
/// planes are at half resolution in both directions, with stride `w / 2`.
pub open spec fn chroma_index(w: int, i: int) -> int {
    ((i / w) / 2) * (w / 2) + (i % w) / 2
}

/// The RGB value of pixel `i` of a planar YUV 4:2:0 buffer: the Y plane holds the
/// first `w * h` bytes, then the U and the V plane `w * h / 4` bytes each.
pub open spec fn yuv420_pixel(d: Seq<u8>, w: int, h: int, i: int) -> (u8, u8, u8) {
    let n = w * h;
    let ci = chroma_index(w, i);
    yuv_to_rgb_spec(d[i], d[n + ci], d[n + n / 4 + ci])
}

pub open spec fn channel(p: (u8, u8, u8), c: int) -> u8 {
    if c == 0 {
        p.0
    } else if c == 1 {
        p.1
    } else {
        p.2
    }
}

/// A planar YUV 4:2:0 buffer converted to packed RGB, three bytes per pixel.
pub open spec fn yuv420_rgb(d: Seq<u8>, w: int, h: int) -> Seq<u8> {
    Seq::new((3 * (w * h)) as nat, |k: int| channel(yuv420_pixel(d, w, h, k / 3), k % 3))
}

/// An NV12 buffer with its interleaved chroma plane split into a U plane (the
/// even-indexed bytes) and a V plane (the odd-indexed bytes).
pub open spec fn nv12_planar(d: Seq<u8>, w: int, h: int) -> Seq<u8> {
    let n = w * h;
    let q = n / 4;
    Seq::new(
        (n + 2 * q) as nat,
        |k: int|
            if k < n {
                d[k]
            } else if k < n + q {
                d[n + 2 * (k - n)]
            } else {
                d[n + 2 * (k - n - q) + 1]
            },
    )
}

pub open spec fn model_of(f: PixelFormat) -> ColorModel {
    match f {
        PixelFormat::Rgba8888 => ColorModel::Rgba,
        _ => ColorModel::Rgb,
    }
}

/// The tensor bytes that normalization makes of a supported raw image.
pub open spec fn normalized_data(img: &RawImage) -> Seq<u8> {
    let w = img.width as int;
    let h = img.height as int;
    match img.format {
        PixelFormat::Yuv420 => yuv420_rgb(img.data@, w, h),
        PixelFormat::Nv12 => yuv420_rgb(nv12_planar(img.data@, w, h), w, h),
        _ => img.data@,
    }
}

/// `t` is the tensor that normalization makes of `img`.
pub open spec fn is_normalization_of(t: &ImageTensor, img: &RawImage) -> bool {
    &&& t.wf()
    &&& t.height == img.height
    &&& t.width == img.width
    &&& t.color_model == model_of(img.format)
    &&& t.data@ == normalized_data(img)
}

/// What normalization reports for an image of format `f`, `width` by `height`,
/// with `len` pixel bytes, when it reports an error.
pub open spec fn layout_error(f: PixelFormat, width: u32, height: u32, len: int) -> Option<
    NormalizeError,
> {
    if !is_supported(f) {
        Some(NormalizeError::Unsupported(f))
    } else if len != expected_len(f, width, height) {
        Some(
            NormalizeError::SizeMismatch {
                expected: expected_len(f, width, height) as u128,
                actual: len as usize,
            },
        )
    } else if is_chroma_subsampled(f) && (width % 2 != 0 || height % 2 != 0) {
        Some(NormalizeError::OddDimensions { width, height })
    } else {
        None
    }
}

pub open spec fn normalize_error(img: &RawImage) -> Option<NormalizeError> {
    layout_error(img.format, img.width, img.height, img.data@.len() as int)
}

/// In every pixel the three channels are equal.
pub open spec fn is_gray(p: (u8, u8, u8)) -> bool {
    p.0 == p.1 && p.1 == p.2
}

/// The media type that compressed JPEG images are tagged with.
pub open spec fn jpeg_media_type() -> Seq<char> {
    "image/jpeg"@
}

/// A compressed image, passed on verbatim with its media type.
#[derive(Debug)]
pub struct CompressedImage {
    pub media_type: String,
    pub data: Vec<u8>,
}

impl ImageTensor {
    /// Dense strides, channel count matching the color model, and a buffer of
    /// exactly `height * width * channels` bytes.
    pub open spec fn wf(&self) -> bool {
        &&& self.channels == channels_of(self.color_model)
        &&& self.row_stride == self.width * self.channels
        &&& self.col_stride == self.channels
        &&& self.elem_stride == 1
        &&& self.data@.len() == self.height * self.width * self.channels
    }

    /// Where the `k`-th element in row-major, channel-last order lies in `data`.
    pub open spec fn strided_index(&self, k: int) -> int {
        let c = self.channels as int;
        let w = self.width as int;
        (k / (w * c)) * self.row_stride + ((k / c) % w) * self.col_stride + (k % c)
            * self.elem_stride
    }

    /// The tensor read out through its strides into a packed row-major buffer.
    pub open spec fn packed_view(&self) -> Seq<u8> {
        Seq::new(
            (self.height * self.width * self.channels) as nat,
            |k: int| self.data@[self.strided_index(k)],
        )
    }

    /// Reads the tensor out through its strides into a packed row-major buffer.
    pub fn to_packed(&self) -> (r: Vec<u8>)
        requires
            self.wf(),
        ensures
            r@ == self.packed_view(),
    {
        proof {
            lemma_dense_strides(self);
        }
        let n = self.data.len();
        let mut out: Vec<u8> = Vec::with_capacity(n);
        let mut k: usize = 0;
        while k < n
            invariant
                self.wf(),
                n == self.data@.len(),
                k <= n,
                out@.len() == k,
                forall|j: int| 0 <= j < n ==> #[trigger] self.strided_index(j) == j,
                forall|j: int| 0 <= j < k ==> out@[j] == self.data@[self.strided_index(j)],
            decreases n - k,
        {
            out.push(self.data[k]);
            k = k + 1;
        }
        proof {
            assert(out@ =~= self.packed_view());
        }
        out
    }

    pub fn height(&self) -> (r: u32)
        ensures
            r == self.height,
    {
        self.height
    }

    pub fn width(&self) -> (r: u32)
        ensures
            r == self.width,
    {
        self.width
    }
}

proof fn lemma_dense_index(w: int, c: int, j: int)
    requires
        w > 0,
        c > 0,
        j >= 0,
    ensures
        (j / (w * c)) * (w * c) + ((j / c) % w) * c + (j % c) == j,
{
    let q = j / c;
    let r = j % c;
    lemma_fundamental_div_mod(j, c);
    lemma_fundamental_div_mod(q, w);
    lemma_div_denominator(j, c, w);
    let a = q / w;
    let b = q % w;
    assert(c * w == w * c) by (nonlinear_arith);
    assert(j / (w * c) == a);
    assert(a * (w * c) + b * c + r == j) by (nonlinear_arith)
        requires
            j == c * q + r,
            q == w * a + b,
    ;
}

/// Under dense strides the `k`-th element lies at index `k`.
proof fn lemma_dense_strides(t: &ImageTensor)
    requires
        t.wf(),
    ensures
        forall|j: int| 0 <= j < t.data@.len() ==> #[trigger] t.strided_index(j) == j,
{
    assert forall|j: int| 0 <= j < t.data@.len() implies #[trigger] t.strided_index(j) == j by {
        let w = t.width as int;
        let c = t.channels as int;
        let h = t.height as int;
        assert(w > 0) by {
            if w == 0 {
                assert(h * w * c == 0) by (nonlinear_arith)
                    requires
                        w == 0,
                ;
            }
        }
        lemma_dense_index(w, c, j);
    }
}

pub(crate) proof fn lemma_even_dims(w: int, h: int)
    requires
        w >= 0,
        h >= 0,
        w % 2 == 0,
        h % 2 == 0,
    ensures
        (w * h) / 4 * 4 == w * h,
        w * h * 3 / 2 == w * h + 2 * ((w * h) / 4),
        w * h >= 0,
{
    let a = w / 2;
    let b = h / 2;
    assert(w * h == 4 * (a * b)) by (nonlinear_arith)
        requires
            w == 2 * a,
            h == 2 * b,
    ;
    assert(a * b >= 0) by (nonlinear_arith)
        requires
            a >= 0,
            b >= 0,
    ;
}

pub(crate) proof fn lemma_chroma_index_bound(w: int, h: int, i: int)
    requires
        w > 0,
        w % 2 == 0,
        h % 2 == 0,
        0 <= i < w * h,
    ensures
        0 <= chroma_index(w, i),
        chroma_index(w, i) < (w * h) / 4,
        0 <= i / w < h,
        (w * h) / 4 * 4 == w * h,
{
    let row = i / w;
    let col = i % w;
    lemma_fundamental_div_mod(i, w);
    lemma_div_pos_is_pos(i, w);
    assert(row < h) by (nonlinear_arith)
        requires
            i == w * row + col,
            0 <= col,
            i < w * h,
            w > 0,
    ;
    let a = w / 2;
    let b = h / 2;
    let rr = row / 2;
    let cc = col / 2;
    assert(rr * a + cc < a * b && 0 <= rr * a) by (nonlinear_arith)
        requires
            0 <= rr < b,
            0 <= cc < a,
    ;
    assert(w * h == 4 * (a * b)) by (nonlinear_arith)
        requires
            w == 2 * a,
            h == 2 * b,
    ;
}

/// Converts a planar YUV 4:2:0 buffer of an even-sized image to packed RGB.
#[verifier::rlimit(30)]
fn convert_yuv420(d: &Vec<u8>, width: u32, height: u32) -> (r: Vec<u8>)
    requires
        width % 2 == 0,
        height % 2 == 0,
        d@.len() == width * height * 3 / 2,
        d@.len() * 2 <= usize::MAX,
    ensures
        r@ == yuv420_rgb(d@, width as int, height as int),
{
    let len = d.len();
    let w = width as usize;
    let h = height as usize;
    proof {
        lemma_even_dims(w as int, h as int);
    }
    assert(w * h <= len);
    let n: usize = w * h;
    let q: usize = n / 4;
    let mut out: Vec<u8> = Vec::new();
    let mut i: usize = 0;
    while i < n
        invariant
            w == width,
            h == height,
            w % 2 == 0,
            h % 2 == 0,
            n == w * h,
            q == n / 4,
            d@.len() == n + 2 * q,
            len == d@.len(),
            len * 2 <= usize::MAX,
            i <= n,
            out@.len() == 3 * i,
            forall|k: int|
                0 <= k < 3 * i ==> out@[k] == channel(
                    yuv420_pixel(d@, w as int, h as int, k / 3),
                    k % 3,
                ),
        decreases n - i,
    {
        proof {
            lemma_chroma_index_bound(w as int, h as int, i as int);
        }
        let row = i / w;
        let col = i % w;
        let ci = (row / 2) * (w / 2) + col / 2;
        let rgb = yuv_to_rgb(d[i], d[n + ci], d[n + q + ci]);
        assert(rgb == yuv420_pixel(d@, w as int, h as int, i as int));
        let ghost before = out@;
        out.push(rgb.0);
        out.push(rgb.1);
        out.push(rgb.2);
        proof {
            let ii = i as int;
            assert forall|k: int| 0 <= k < 3 * (ii + 1) implies out@[k] == channel(
                yuv420_pixel(d@, w as int, h as int, k / 3),
                k % 3,
            ) by {
                if k >= 3 * ii {
                    assert(k / 3 == ii);
                    assert(k % 3 == k - 3 * ii);
                } else {
                    assert(out@[k] == before[k]);
                }
            }
        }
        i = i + 1;
    }
    proof {
        assert(out@ =~= yuv420_rgb(d@, w as int, h as int));
    }
    out
}

/// Splits the interleaved chroma plane of an even-sized NV12 image into planes.
pub(crate) fn split_nv12(d: &Vec<u8>, width: u32, height: u32) -> (r: Vec<u8>)
    requires
        width % 2 == 0,
        height % 2 == 0,
        d@.len() == width * height * 3 / 2,
    ensures
        r@ == nv12_planar(d@, width as int, height as int),
{
    let len = d.len();
    let w = width as usize;
    let h = height as usize;
    proof {
        lemma_even_dims(w as int, h as int);
    }
    assert(w * h <= len);
    let n: usize = w * h;
    let q: usize = n / 4;
    let ghost target = nv12_planar(d@, w as int, h as int);
    let mut out: Vec<u8> = Vec::new();
    let mut k: usize = 0;
    while k < n
        invariant
            n == w * h,
            target == nv12_planar(d@, w as int, h as int),
            d@.len() == n + 2 * q,
            len == d@.len(),
            q == n / 4,
            k <= n,
            out@.len() == k,
            forall|t: int| 0 <= t < k ==> out@[t] == target[t],
        decreases n - k,
    {
        out.push(d[k]);
        k = k + 1;
    }
    let mut j: usize = 0;
    while j < q
        invariant
            n == w * h,
            target == nv12_planar(d@, w as int, h as int),
            d@.len() == n + 2 * q,
            len == d@.len(),
            q == n / 4,
            j <= q,
            out@.len() == n + j,
            forall|t: int| 0 <= t < n + j ==> out@[t] == target[t],
        decreases q - j,
    {
        out.push(d[n + 2 * j]);
        j = j + 1;
    }
    let mut j: usize = 0;
    while j < q
        invariant
            n == w * h,
            target == nv12_planar(d@, w as int, h as int),
            d@.len() == n + 2 * q,
            len == d@.len(),
            q == n / 4,
            j <= q,
            out@.len() == n + q + j,
            forall|t: int| 0 <= t < n + q + j ==> out@[t] == target[t],
        decreases q - j,
    {
        out.push(d[n + 2 * j + 1]);
        j = j + 1;
    }
    proof {
        assert(out@ =~= target);
    }
    out
}

fn check_layout(f: PixelFormat, width: u32, height: u32, len: usize) -> (r: Option<NormalizeError>)
    ensures
        r == layout_error(f, width, height, len as int),
{
    if matches!(f, PixelFormat::Yuv422) || matches!(f, PixelFormat::Yuv444) {
        return Some(NormalizeError::Unsupported(f));
    }
    let w = width as u128;
    let h = height as u128;
    assert(w * h <= 0xffff_ffffu128 * 0xffff_ffffu128) by (nonlinear_arith)
        requires
            w <= 0xffff_ffffu128,
            h <= 0xffff_ffffu128,
    ;
    let n = w * h;
    let expected: u128 = match f {
        PixelFormat::Rgb888 => n * 3,
        PixelFormat::Rgba8888 => n * 4,
        _ => n * 3 / 2,
    };
    if expected != len as u128 {
        return Some(NormalizeError::SizeMismatch { expected, actual: len });
    }
    let subsampled = matches!(f, PixelFormat::Yuv420) || matches!(f, PixelFormat::Nv12);
    if subsampled && (width % 2 != 0 || height % 2 != 0) {
        return Some(NormalizeError::OddDimensions { width, height });
    }
    None
}

/// Converts a planar YUV 4:2:0 buffer to packed RGB with limited-range BT.709.
/// The buffer must hold exactly `width * height * 3 / 2` bytes of an even-sized image.
pub fn yuv420_to_rgb(data: &Vec<u8>, width: u32, height: u32) -> (r: Result<Vec<u8>, NormalizeError>)
    requires
        data@.len() * 2 <= usize::MAX,
    ensures
        match layout_error(PixelFormat::Yuv420, width, height, data@.len() as int) {
            Some(e) => r == Err::<Vec<u8>, NormalizeError>(e),
            None => r is Ok && r->Ok_0@ == yuv420_rgb(data@, width as int, height as int)
                && r->Ok_0@.len() == width * height * 3,
        },
{
    match check_layout(PixelFormat::Yuv420, width, height, data.len()) {
        Some(e) => Err(e),
        None => Ok(convert_yuv420(data, width, height)),
    }
}

/// Splits the interleaved chroma plane of an NV12 buffer into a U plane (even-indexed
/// bytes) and a V plane (odd-indexed bytes), giving a planar YUV 4:2:0 buffer.
pub fn nv12_to_yuv420(data: &Vec<u8>, width: u32, height: u32) -> (r: Result<Vec<u8>, NormalizeError>)
    ensures
        match layout_error(PixelFormat::Nv12, width, height, data@.len() as int) {
            Some(e) => r == Err::<Vec<u8>, NormalizeError>(e),
            None => r is Ok && r->Ok_0@ == nv12_planar(data@, width as int, height as int)
                && r->Ok_0@.len() == data@.len(),
        },
{
    match check_layout(PixelFormat::Nv12, width, height, data.len()) {
        Some(e) => Err(e),
        None => {
            proof {
                lemma_even_dims(width as int, height as int);
            }
            Ok(split_nv12(data, width, height))
        },
    }
}

/// Normalizes a raw image into one tensor: RGB888 and RGBA8888 are taken as they
/// are, YUV420 and NV12 are converted to RGB; YUV422 and YUV444 are unsupported.
pub fn normalize(image: RawImage) -> (r: Result<ImageTensor, NormalizeError>)
    requires
        image.data@.len() * 2 <= usize::MAX,
    ensures
        match normalize_error(&image) {
            Some(e) => r == Err::<ImageTensor, NormalizeError>(e),
            None => r is Ok && is_normalization_of(&r->Ok_0, &image),
        },
{
    let ghost img = image;
    if let Some(e) = check_layout(image.format, image.width, image.height, image.data.len()) {
        return Err(e);
    }
    let width = image.width;
    let height = image.height;
    let (model, data) = match image.format {
        PixelFormat::Rgb888 => (ColorModel::Rgb, image.data),
        PixelFormat::Rgba8888 => (ColorModel::Rgba, image.data),
        PixelFormat::Yuv420 => (ColorModel::Rgb, convert_yuv420(&image.data, width, height)),
        _ => {
            proof {
                lemma_even_dims(width as int, height as int);
            }
            let planar = split_nv12(&image.data, width, height);
            (ColorModel::Rgb, convert_yuv420(&planar, width, height))
        },
    };
    let channels: u32 = match model {
        ColorModel::Rgb => 3,
        ColorModel::Rgba => 4,
    };
    assert(data@.len() == height * width * channels) by (nonlinear_arith)
        requires
            data@.len() == width * height * channels,
    ;
    assert(width as u64 * channels as u64 <= 0xffff_ffffu64 * 4) by (nonlinear_arith)
        requires
            width <= 0xffff_ffffu64,
            channels <= 4,
    ;
    let t = ImageTensor {
        height,
        width,
        channels,
        color_model: model,
        row_stride: width as u64 * channels as u64,
        col_stride: channels as u64,
        elem_stride: 1,
        data,
    };
    assert(t.data@ == normalized_data(&img));
    Ok(t)
}

/// Passes a JPEG byte stream on verbatim, tagged `image/jpeg`.
pub fn compressed_jpeg(data: Vec<u8>) -> (r: CompressedImage)
    ensures
        r.data@ == data@,
        r.media_type@ == jpeg_media_type(),
{
    CompressedImage { media_type: String::from_str("image/jpeg"), data }
}

/// Normalizing a packed RGB or RGBA image and reading the tensor back out through
/// its strides gives the original bytes, and normalizing those bytes again gives
/// the same tensor.
pub proof fn lemma_packed_round_trip(img: &RawImage, t: &ImageTensor)
    requires
        img.format is Rgb888 || img.format is Rgba8888,
        is_normalization_of(t, img),
    ensures
        t.packed_view() == img.data@,
        forall|again: RawImage|
            again.width == img.width && again.height == img.height && again.format == img.format
                && again.data@ == t.packed_view() ==> #[trigger] is_normalization_of(t, &again),
{
    lemma_dense_strides(t);
    assert(t.packed_view() =~= t.data@);
}

/// NV12 input whose chroma bytes are all 128 converts to gray pixels, whatever
/// its luma.
pub proof fn lemma_nv12_neutral_chroma_is_gray(d: Seq<u8>, width: u32, height: u32)
    requires
        width % 2 == 0,
        height % 2 == 0,
        d.len() == expected_len(PixelFormat::Nv12, width, height),
        forall|k: int| width * height <= k < d.len() ==> d[k] == 128,
    ensures
        forall|i: int|
            0 <= i < width * height ==> is_gray(
                #[trigger] yuv420_pixel(
                    nv12_planar(d, width as int, height as int),
                    width as int,
                    height as int,
                    i,
                ),
            ),
{
    let w = width as int;
    let h = height as int;
    lemma_even_dims(w, h);
    let p = nv12_planar(d, w, h);
    assert forall|i: int| 0 <= i < w * h implies is_gray(
        #[trigger] yuv420_pixel(p, w, h, i),
    ) by {
        let n = w * h;
        let ci = chroma_index(w, i);
        assert(w > 0) by {
            if w == 0 {
                assert(w * h == 0) by (nonlinear_arith)
                    requires
                        w == 0,
                ;
            }
        }
        lemma_chroma_index_bound(w, h, i);
        assert(p[n + ci] == d[n + 2 * ci]);
        assert(p[n + n / 4 + ci] == d[n + 2 * ci + 1]);
        lemma_neutral_chroma_is_gray(d[i]);
    }
}

} // verus!
