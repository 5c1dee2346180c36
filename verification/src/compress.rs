//! Recompression of a fetched image: decode, optionally reduce to
//! grayscale, encode as WebP or JPEG at a chosen quality.
//!
//! Decoding and encoding are done by the image codecs; their results are
//! named here and the pipeline around them is stated over those names.

use vstd::prelude::*;
use crate::error::{AppError, ErrorKind};
use crate::params::wants_monochrome;
use crate::views::vec_bytes;

verus! {

/// A decoded image: its dimensions and its pixels, four bytes each
/// (red, green, blue, alpha), row by row.
#[derive(Clone, Debug, PartialEq, Eq)]
pub struct RgbaPixels {
    pub width: u32,
    pub height: u32,
    pub data: Vec<u8>,
}

impl View for RgbaPixels {
    type V = (u32, u32, Seq<u8>);

    open spec fn view(&self) -> (u32, u32, Seq<u8>) {
        (self.width, self.height, self.data@)
    }
}

/// The widest image that is handed to the WebP encoder: it counts the
/// bytes of a row, four a pixel, in a signed 32-bit integer.
pub const WEBP_MAX_WIDTH: u32 = 536_870_911;

/// The image that `bytes` decodes to, as width, height and RGBA pixels;
/// `None` where `bytes` is no image in a known format.
pub uninterp spec fn image_decoded(bytes: Seq<u8>) -> Option<(u32, u32, Seq<u8>)>;

/// The RGBA pixels of the grayscale form of an image; `None` where `data`
/// holds too few pixels for the dimensions.
pub uninterp spec fn grayscale_pixels(width: u32, height: u32, data: Seq<u8>) -> Option<Seq<u8>>;

/// The lossy WebP encoding of an image at `quality`; `None` where the
/// encoder refuses the image or the quality.
pub uninterp spec fn webp_encoded(width: u32, height: u32, data: Seq<u8>, quality: u8) -> Option<
    Seq<u8>,
>;

/// The JPEG encoding of an image at `quality`; `None` where the encoder
/// refuses the image.
pub uninterp spec fn jpeg_encoded(width: u32, height: u32, data: Seq<u8>, quality: u8) -> Option<
    Seq<u8>,
>;

/// The contents of an optional pixel grid.
pub open spec fn pixels_view(p: Option<RgbaPixels>) -> Option<(u32, u32, Seq<u8>)> {
    match p {
        Some(img) => Some(img@),
        None => None,
    }
}

/// Calls `image::load_from_memory` and `DynamicImage::to_rgba8` on its
/// result. Trusted: the outcome is the named decoding of `bytes`, a
/// decoding error being `None`.
#[verifier::external_body]
fn load_rgba(bytes: &[u8]) -> (r: Option<RgbaPixels>)
    ensures
        pixels_view(r) == image_decoded(bytes@),
{
    let img = image::load_from_memory(bytes).ok()?.to_rgba8();
    Some(RgbaPixels { width: img.width(), height: img.height(), data: img.into_raw() })
}

/// Calls `image::imageops::grayscale` and widens its result back to RGBA
/// with `DynamicImage::to_rgba8`. Trusted: the outcome is the named
/// grayscale form, `None` where the buffer does not fit the dimensions.
#[verifier::external_body]
fn grayscale_rgba(width: u32, height: u32, data: Vec<u8>) -> (r: Option<Vec<u8>>)
    ensures
        vec_bytes(r) == grayscale_pixels(width, height, data@),
{
    let img = image::RgbaImage::from_raw(width, height, data)?;
    let gray = image::imageops::grayscale(&img);
    Some(image::DynamicImage::ImageLuma8(gray).to_rgba8().into_raw())
}

/// Calls `webp::Encoder::from_rgba` and `encode_simple` in lossy mode.
/// Trusted: the outcome is the named WebP encoding, an encoder error or
/// a buffer that does not fit the dimensions being `None`. Wider images
/// are left out because the encoder's row length would overflow.
#[verifier::external_body]
fn encode_webp(width: u32, height: u32, data: Vec<u8>, quality: u8) -> (r: Option<Vec<u8>>)
    requires
        width <= WEBP_MAX_WIDTH,
    ensures
        vec_bytes(r) == webp_encoded(width, height, data@, quality),
{
    let img = image::RgbaImage::from_raw(width, height, data)?;
    let encoder = webp::Encoder::from_rgba(&img, width, height);
    let memory = encoder.encode_simple(false, quality.into()).ok()?;
    Some(memory.to_vec())
}

/// Calls `JpegEncoder::new_with_quality` and `encode_image` of
/// `image::codecs::jpeg`. Trusted: the outcome is the named JPEG
/// encoding, an encoder error or a buffer that does not fit the
/// dimensions being `None`.
#[verifier::external_body]
fn encode_jpeg(width: u32, height: u32, data: Vec<u8>, quality: u8) -> (r: Option<Vec<u8>>)
    ensures
        vec_bytes(r) == jpeg_encoded(width, height, data@, quality),
{
    let img = image::RgbaImage::from_raw(width, height, data)?;
    let mut buf = Vec::new();
    let mut encoder = image::codecs::jpeg::JpegEncoder::new_with_quality(&mut buf, quality);
    encoder.encode_image(&img).ok()?;
    Some(buf)
}

/// The pixels that go to the encoder: the grayscale form in monochrome
/// mode, the image itself otherwise.
pub open spec fn toned(image: (u32, u32, Seq<u8>), monochrome: bool) -> Option<
    (u32, u32, Seq<u8>),
> {
    if monochrome {
        match grayscale_pixels(image.0, image.1, image.2) {
            Some(gray) => Some((image.0, image.1, gray)),
            None => None,
        }
    } else {
        Some(image)
    }
}

/// The encoding of an image in the chosen codec. An image too wide for
/// the WebP encoder has no WebP encoding.
pub open spec fn encoded(image: (u32, u32, Seq<u8>), quality: u8, webp: bool) -> Option<Seq<u8>> {
    if webp {
        if image.0 <= WEBP_MAX_WIDTH {
            webp_encoded(image.0, image.1, image.2, quality)
        } else {
            None
        }
    } else {
        jpeg_encoded(image.0, image.1, image.2, quality)
    }
}

/// What the pipeline makes of an already decoded image.
pub open spec fn recompressed(
    decoded: Option<(u32, u32, Seq<u8>)>,
    quality: u8,
    monochrome: bool,
    webp: bool,
) -> Result<Seq<u8>, ErrorKind> {
    match decoded {
        None => Err(ErrorKind::Decode),
        Some(image) => match toned(image, monochrome) {
            None => Err(ErrorKind::Encode),
            Some(pixels) => match encoded(pixels, quality, webp) {
                Some(out) => Ok(out),
                None => Err(ErrorKind::Encode),
            },
        },
    }
}

/// What the pipeline makes of fetched bytes: the encoded image, or the
/// kind of the stage that failed.
pub open spec fn transcoded(bytes: Seq<u8>, quality: u8, monochrome: bool, webp: bool) -> Result<
    Seq<u8>,
    ErrorKind,
> {
    recompressed(image_decoded(bytes), quality, monochrome, webp)
}

/// Whether `result` is the outcome `expected`: the same bytes, or a
/// failure of the same kind.
pub open spec fn is_outcome(result: Result<Vec<u8>, AppError>, expected: Result<Seq<u8>, ErrorKind>) -> bool {
    match (result, expected) {
        (Ok(out), Ok(bytes)) => out@ == bytes,
        (Err(e), Err(kind)) => e.kind == kind,
        _ => false,
    }
}

/// Decodes `bytes` into RGBA pixels, alpha retained.
pub fn decode(bytes: &[u8]) -> (r: Result<RgbaPixels, AppError>)
    ensures
        r.is_ok() == image_decoded(bytes@).is_some(),
        r matches Ok(image) ==> image_decoded(bytes@) == Some(image@),
        r matches Err(e) ==> e.kind == ErrorKind::Decode,
{
    match load_rgba(bytes) {
        Some(image) => Ok(image),
        None => Err(AppError::new(ErrorKind::Decode)),
    }
}

/// Reduces an image to grayscale when `monochrome` is set and leaves it
/// as it is otherwise.
pub fn tone(image: RgbaPixels, monochrome: bool) -> (r: Result<RgbaPixels, AppError>)
    ensures
        r.is_ok() == toned(image@, monochrome).is_some(),
        r matches Ok(pixels) ==> toned(image@, monochrome) == Some(pixels@),
        r matches Err(e) ==> e.kind == ErrorKind::Encode,
{
    if monochrome {
        let width: u32 = image.width;
        let height: u32 = image.height;
        match grayscale_rgba(width, height, image.data) {
            Some(gray) => Ok(RgbaPixels { width, height, data: gray }),
            None => Err(AppError::new(ErrorKind::Encode)),
        }
    } else {
        Ok(image)
    }
}

/// Encodes an image in the chosen codec: WebP when `webp` is set, JPEG
/// otherwise.
pub fn encode(image: RgbaPixels, quality: u8, webp: bool) -> (r: Result<Vec<u8>, AppError>)
    ensures
        r.is_ok() == encoded(image@, quality, webp).is_some(),
        r matches Ok(out) ==> encoded(image@, quality, webp) == Some(out@),
        r matches Err(e) ==> e.kind == ErrorKind::Encode,
{
    let out = if webp {
        if image.width <= WEBP_MAX_WIDTH {
            encode_webp(image.width, image.height, image.data, quality)
        } else {
            None
        }
    } else {
        encode_jpeg(image.width, image.height, image.data, quality)
    };
    match out {
        Some(bytes) => Ok(bytes),
        None => Err(AppError::new(ErrorKind::Encode)),
    }
}

/// Runs the stages after decoding on a decoded image: grayscale if
/// `monochrome` is set, then the chosen encoder.
pub fn recompress(image: RgbaPixels, quality: u8, monochrome: bool, webp: bool) -> (r: Result<
    Vec<u8>,
    AppError,
>)
    ensures
        is_outcome(r, recompressed(Some(image@), quality, monochrome, webp)),
{
    match tone(image, monochrome) {
        Ok(pixels) => encode(pixels, quality, webp),
        Err(e) => Err(e),
    }
}

/// Decodes `image_bytes`, reduces the image to grayscale if `monochrome`
/// is set, and encodes it at `quality` as WebP if `webp` is set and as
/// JPEG otherwise. The outcome is a function of the four arguments.
pub fn compress_image(image_bytes: &[u8], quality: u8, monochrome: bool, webp: bool) -> (r: Result<
    Vec<u8>,
    AppError,
>)
    ensures
        is_outcome(r, transcoded(image_bytes@, quality, monochrome, webp)),
{
    match decode(image_bytes) {
        Ok(image) => recompress(image, quality, monochrome, webp),
        Err(e) => Err(e),
    }
}

/// Decodes `image_bytes` and encodes the image as WebP at `quality`,
/// colours and alpha kept.
pub fn convert_bytes_to_webp_with_alpha(image_bytes: &[u8], quality: u8) -> (r: Result<
    Vec<u8>,
    AppError,
>)
    ensures
        is_outcome(r, transcoded(image_bytes@, quality, false, true)),
{
    compress_image(image_bytes, quality, false, true)
}

/// The `bw` parameter decides what reaches the encoder: with `bw`
/// present and zero the decoded pixels themselves, every channel as it
/// was; with `bw` absent or not zero their grayscale form, in the same
/// dimensions.
pub proof fn lemma_tone_follows_bw(image: (u32, u32, Seq<u8>), bw: Option<u32>)
    ensures
        bw == Some(0u32) ==> toned(image, wants_monochrome(bw)) == Some(image),
        bw != Some(0u32) ==> toned(image, wants_monochrome(bw)) == match grayscale_pixels(
            image.0,
            image.1,
            image.2,
        ) {
            Some(gray) => Some((image.0, image.1, gray)),
            None => None,
        },
{
}

/// Recompression is deterministic: two outcomes of the pipeline on the
/// same bytes and settings are the same bytes, or failures of one kind.
pub proof fn lemma_transcode_deterministic(
    first: Result<Vec<u8>, AppError>,
    second: Result<Vec<u8>, AppError>,
    bytes: Seq<u8>,
    quality: u8,
    monochrome: bool,
    webp: bool,
)
    requires
        is_outcome(first, transcoded(bytes, quality, monochrome, webp)),
        is_outcome(second, transcoded(bytes, quality, monochrome, webp)),
    ensures
        first is Ok <==> second is Ok,
        first matches Ok(a) ==> second matches Ok(b) && a@ == b@,
        first matches Err(e) ==> second matches Err(f) && e.kind == f.kind,
{
}

} // verus!
