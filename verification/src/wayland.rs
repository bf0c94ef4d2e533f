//! The compute core of the Wayland clipboard backend.
//!
//! A compositor without a direct clipboard API hands content over as raw
//! bytes under a MIME type. This module maps the small fixed set of
//! supported MIME types to a decodable picture format, decodes such bytes
//! into an RGBA8 [`Image`], and re-encodes an [`Image`] as PNG for writing.
//! The pipe and socket I/O that obtains and delivers the bytes lives
//! outside the verified core.

use vstd::prelude::*;
use vstd::utf8::{decode_utf8, encode_utf8, encode_utf8_decode_utf8, valid_utf8};
use vstd::string::{StrSliceExecFns, StringExecFns};
use crate::port::ClipboardError;
use crate::snapshot::{Image, ImageView};

verus! {

/// A picture format the backend can decode from clipboard bytes.
#[derive(Clone, Copy, PartialEq, Eq, Debug)]
pub enum PictureFormat {
    Png,
    Gif,
    WebP,
    Jpeg,
}

/// A number for each picture format, to name decoding results by.
pub open spec fn format_code(f: PictureFormat) -> int {
    match f {
        PictureFormat::Png => 0,
        PictureFormat::Gif => 1,
        PictureFormat::WebP => 2,
        PictureFormat::Jpeg => 3,
    }
}

/// The picture format a MIME type announces, for the fixed set the
/// backend supports.
pub open spec fn spec_mime_format(m: Seq<char>) -> Option<PictureFormat> {
    if m == "image/png"@ {
        Option::Some(PictureFormat::Png)
    } else if m == "image/gif"@ {
        Option::Some(PictureFormat::Gif)
    } else if m == "image/webp"@ {
        Option::Some(PictureFormat::WebP)
    } else if m == "image/jpeg"@ {
        Option::Some(PictureFormat::Jpeg)
    } else {
        Option::None
    }
}

/// Equality of two string slices, decided on their UTF-8 bytes.
fn str_eq(a: &str, b: &str) -> (r: bool)
    ensures
        r == (a@ == b@),
{
    let av = a.as_bytes_vec();
    let bv = b.as_bytes_vec();
    if av.len() != bv.len() {
        return false;
    }
    let n: usize = av.len();
    let mut i: usize = 0;
    while i < n
        invariant
            n == av.len() == bv.len(),
            av@ == encode_utf8(a@),
            bv@ == encode_utf8(b@),
            i <= n,
            forall|j: int| 0 <= j < i ==> av@[j] == bv@[j],
        decreases n - i,
    {
        if av[i] != bv[i] {
            return false;
        }
        i += 1;
    }
    proof {
        assert(av@ =~= bv@);
        encode_utf8_decode_utf8(a@);
        encode_utf8_decode_utf8(b@);
    }
    true
}

/// Maps a MIME type string to the picture format it announces.
pub fn mime_to_format(mime: &str) -> (r: Option<PictureFormat>)
    ensures
        r == spec_mime_format(mime@),
{
    if str_eq(mime, "image/png") {
        Option::Some(PictureFormat::Png)
    } else if str_eq(mime, "image/gif") {
        Option::Some(PictureFormat::Gif)
    } else if str_eq(mime, "image/webp") {
        Option::Some(PictureFormat::WebP)
    } else if str_eq(mime, "image/jpeg") {
        Option::Some(PictureFormat::Jpeg)
    } else {
        Option::None
    }
}

/// What std's lossy UTF-8 conversion makes of a byte sequence — valid
/// sequences decode as they are, invalid ones have their errors replaced:
/// a function of the bytes alone.
pub uninterp spec fn lossy_of(b: Seq<u8>) -> Seq<char>;

/// Relies on `String::from_utf8_lossy`: the result depends on the bytes
/// alone, and valid UTF-8 converts without change.
#[verifier::external_body]
fn utf8_lossy(bytes: Vec<u8>) -> (r: String)
    ensures
        r@ == lossy_of(bytes@),
        valid_utf8(bytes@) ==> r@ == decode_utf8(bytes@),
{
    String::from_utf8_lossy(&bytes).into_owned()
}

/// What decoding a picture of the given format from the given bytes
/// yields: the decode is a function of the bytes and the format alone.
pub uninterp spec fn decoded_rgba(bytes: Seq<u8>, format: int) -> Option<ImageView>;

/// The PNG encoding of an RGBA8 pixel buffer with the given dimensions: a
/// function of the pixels and the dimensions alone.
pub uninterp spec fn png_of(width: int, height: int, pixels: Seq<u8>) -> Seq<u8>;

/// Relies on image's `load_from_memory_with_format` and RGBA8 conversion:
/// the decoded picture depends only on the input bytes and the format, and
/// an RGBA8 buffer holds exactly `width * height * 4` bytes.
#[verifier::external_body]
fn decode_rgba(bytes: &Vec<u8>, format: &PictureFormat) -> (r: Option<Image>)
    ensures
        match r {
            Option::Some(img) => decoded_rgba(bytes@, format_code(*format)) == Option::Some(img@)
                && img.bytes@.len() == img.width * img.height * 4
                && img.width <= u32::MAX && img.height <= u32::MAX,
            Option::None => decoded_rgba(bytes@, format_code(*format)) is None,
        },
{
    let fmt = match format {
        PictureFormat::Png => image::ImageFormat::Png,
        PictureFormat::Gif => image::ImageFormat::Gif,
        PictureFormat::WebP => image::ImageFormat::WebP,
        PictureFormat::Jpeg => image::ImageFormat::Jpeg,
    };
    let rgba = image::load_from_memory_with_format(bytes, fmt).ok()?.into_rgba8();
    let (width, height) = rgba.dimensions();
    Some(Image { width: width as usize, height: height as usize, bytes: rgba.into_raw() })
}

/// Relies on image's `PngEncoder::write_image`: the PNG bytes depend only
/// on the pixel buffer and its dimensions. It demands a buffer of exactly
/// `width * height * 4` bytes, and with such a buffer it can fail only on
/// a zero width or height: RGBA8 at eight bits is a valid PNG layout, and
/// writing into a `Vec` cannot fail.
#[verifier::external_body]
fn encode_png_rgba(pixels: &Vec<u8>, width: u32, height: u32) -> (r: Result<Vec<u8>, String>)
    requires
        pixels@.len() == width * height * 4,
    ensures
        r matches Ok(png) ==> png@ == png_of(width as int, height as int, pixels@),
        width > 0 && height > 0 ==> r is Ok,
{
    let mut out: Vec<u8> = Vec::new();
    let enc = image::codecs::png::PngEncoder::new(&mut out);
    match image::ImageEncoder::write_image(enc, pixels, width, height,
        image::ExtendedColorType::Rgba8) {
        Ok(()) => Ok(out),
        Err(e) => Err(format!("{e}")),
    }
}

/// The clipboard backend for composited display environments that lack a
/// direct clipboard API. This type holds the backend's computing half —
/// what to make of bytes pasted under a MIME type, and what bytes to copy
/// for an image; the unverified half does the actual paste and copy I/O
/// with these methods' results, re-encoding every image to PNG on write.
pub struct WaylandClipboard;

impl WaylandClipboard {
    /// Turns pasted clipboard bytes into the string of a text snapshot, as
    /// std's lossy UTF-8 conversion reads them: valid UTF-8 decodes to
    /// exactly its characters, invalid sequences are replaced.
    pub fn import_text(&self, contents: Vec<u8>) -> (r: String)
        ensures
            r@ == lossy_of(contents@),
            valid_utf8(contents@) ==> r@ == decode_utf8(contents@),
    {
        utf8_lossy(contents)
    }

    /// Turns pasted clipboard bytes into an image snapshot: the MIME type
    /// must be one of the supported set, and the bytes must decode in the
    /// format it announces.
    pub fn import_image(&self, mime: &str, contents: Vec<u8>) -> (r: Result<Image, ClipboardError>)
        ensures
            match spec_mime_format(mime@) {
                Option::None => r matches Err(ClipboardError::UnsupportedFormat),
                Option::Some(f) => match r {
                    Result::Ok(img) => decoded_rgba(contents@, format_code(f)) == Option::Some(
                        img@,
                    ) && img.bytes@.len() == img.width * img.height * 4,
                    Result::Err(e) => decoded_rgba(contents@, format_code(f)) is None && (
                    e matches ClipboardError::Backend(m) && m@
                        == "could not decode clipboard image"@),
                },
            },
    {
        let fmt = match mime_to_format(mime) {
            Option::Some(f) => f,
            Option::None => {
                return Result::Err(ClipboardError::UnsupportedFormat);
            }
        };
        match decode_rgba(&contents, &fmt) {
            Option::Some(img) => Result::Ok(img),
            Option::None => Result::Err(
                ClipboardError::Backend(String::from_str("could not decode clipboard image")),
            ),
        }
    }

    /// Re-encodes an image snapshot as the PNG bytes to copy. A zero-sized
    /// image or an empty pixel buffer is rejected as invalid; a pixel
    /// buffer that does not match the dimensions, or dimensions beyond the
    /// encoder's range, fail as backend errors. Every other image — the
    /// well-formed ones — encodes successfully.
    pub fn export_image(&self, img: &Image) -> (r: Result<Vec<u8>, ClipboardError>)
        ensures
            (r matches Err(ClipboardError::InvalidImage)) <==> (img.width == 0 || img.height == 0
                || img.bytes@.len() == 0),
            (img.width > 0 && img.height > 0 && img.bytes@.len() > 0 && (img.width as int
                > u32::MAX as int || img.height as int > u32::MAX as int)) ==> (
            r matches Err(ClipboardError::Backend(m)) && m@
                == "image too large for the PNG encoder"@),
            (img.width > 0 && img.height > 0 && img.bytes@.len() > 0 && img.width as int
                <= u32::MAX as int && img.height as int <= u32::MAX as int && img.bytes@.len()
                != img.width * img.height * 4) ==> (r matches Err(ClipboardError::Backend(m))
                && m@ == "pixel buffer does not match the image dimensions"@),
            r matches Ok(png) ==> img.bytes@.len() == img.width * img.height * 4 && png@ == png_of(
                img.width as int,
                img.height as int,
                img.bytes@,
            ),
            (img.width > 0 && img.height > 0 && img.width as int <= u32::MAX as int
                && img.height as int <= u32::MAX as int && img.bytes@.len() == img.width
                * img.height * 4) ==> (r matches Ok(png) && png@ == png_of(
                img.width as int,
                img.height as int,
                img.bytes@,
            )),
    {
        if img.width == 0 || img.height == 0 || img.bytes.len() == 0 {
            proof {
                assert(img.width > 0 && img.height > 0 ==> img.width * img.height * 4 > 0)
                    by (nonlinear_arith);
            }
            return Result::Err(ClipboardError::InvalidImage);
        }
        if img.width > u32::MAX as usize || img.height > u32::MAX as usize {
            return Result::Err(
                ClipboardError::Backend(String::from_str("image too large for the PNG encoder")),
            );
        }
        let w128: u128 = img.width as u128;
        let h128: u128 = img.height as u128;
        proof {
            assert(w128 * h128 * 4 <= 0xffff_ffff * 0xffff_ffff * 4) by (nonlinear_arith)
                requires
                    w128 <= 0xffff_ffff,
                    h128 <= 0xffff_ffff,
            ;
        }
        if (img.bytes.len() as u128) != w128 * h128 * 4 {
            return Result::Err(
                ClipboardError::Backend(
                    String::from_str("pixel buffer does not match the image dimensions"),
                ),
            );
        }
        match encode_png_rgba(&img.bytes, img.width as u32, img.height as u32) {
            Result::Ok(png) => Result::Ok(png),
            Result::Err(m) => Result::Err(ClipboardError::Backend(m)),
        }
    }
}

} // verus!
