//! Pieces of artwork import that are plain text and bytes: which file
//! extensions are accepted, and how a bitmap is carried to the display as a
//! data URL.

use vstd::prelude::*;
use base64::Engine as _;
use crate::text::{chars_of, split, string_of, split_ranges};

verus! {

/// What `str::to_lowercase` makes of a text.
pub uninterp spec fn lower_of(s: Seq<char>) -> Seq<char>;

/// Relies on `str::to_lowercase`: the result depends on the characters alone.
#[verifier::external_body]
fn lowercase(s: &str) -> (r: String)
    ensures
        r@ == lower_of(s@),
{
    s.to_lowercase()
}

/// The extensions that import accepts, in lower case.
pub open spec fn supported_lower(e: Seq<char>) -> bool {
    e == "svg"@ || e == "png"@ || e == "jpg"@ || e == "jpeg"@ || e == "gif"@ || e == "bmp"@ || e
        == "webp"@
}

/// Whether an extension, already in lower case, is accepted.
pub fn is_supported_lower(ext: &str) -> (r: bool)
    ensures
        r == supported_lower(ext@),
{
    let v = chars_of(ext);
    let n = v.len();
    assert(v@.subrange(0, n as int) =~= ext@);
    crate::text::text_is(&v, 0, n, "svg") || crate::text::text_is(&v, 0, n, "png")
        || crate::text::text_is(&v, 0, n, "jpg") || crate::text::text_is(&v, 0, n, "jpeg")
        || crate::text::text_is(&v, 0, n, "gif") || crate::text::text_is(&v, 0, n, "bmp")
        || crate::text::text_is(&v, 0, n, "webp")
}

/// Whether a file extension is accepted, in any letter case.
pub fn is_supported_extension(ext: &str) -> (r: bool)
    ensures
        r == supported_lower(lower_of(ext@)),
{
    let lower = lowercase(ext);
    is_supported_lower(lower.as_str())
}

/// The media type of a bitmap format (a lower-case extension).
pub open spec fn mime_type_text(format: Seq<char>) -> Seq<char> {
    if format == "png"@ {
        "image/png"@
    } else if format == "jpg"@ || format == "jpeg"@ {
        "image/jpeg"@
    } else if format == "gif"@ {
        "image/gif"@
    } else if format == "bmp"@ {
        "image/bmp"@
    } else if format == "webp"@ {
        "image/webp"@
    } else {
        "application/octet-stream"@
    }
}

pub fn mime_type_for(format: &str) -> (r: &'static str)
    ensures
        r@ == mime_type_text(format@),
{
    let v = chars_of(format);
    let n = v.len();
    assert(v@.subrange(0, n as int) =~= format@);
    if crate::text::text_is(&v, 0, n, "png") {
        "image/png"
    } else if crate::text::text_is(&v, 0, n, "jpg") || crate::text::text_is(&v, 0, n, "jpeg") {
        "image/jpeg"
    } else if crate::text::text_is(&v, 0, n, "gif") {
        "image/gif"
    } else if crate::text::text_is(&v, 0, n, "bmp") {
        "image/bmp"
    } else if crate::text::text_is(&v, 0, n, "webp") {
        "image/webp"
    } else {
        "application/octet-stream"
    }
}

/// The format named by a media type: what follows its first `/`, or `png`
/// when there is no `/`.
pub open spec fn format_of_mime_text(mime: Seq<char>) -> Seq<char> {
    let parts = split(mime, '/');
    if parts.len() > 1 {
        parts[1]
    } else {
        "png"@
    }
}

pub fn format_of_mime(mime: &str) -> (r: String)
    ensures
        r@ == format_of_mime_text(mime@),
{
    let v = chars_of(mime);
    let n = v.len();
    assert(v@.subrange(0, n as int) =~= mime@);
    let parts = split_ranges(&v, 0, n, '/');
    if parts.len() > 1 {
        string_of(&v, parts[1].0, parts[1].1)
    } else {
        String::from_str("png")
    }
}

/// What the standard, padded base64 encoding makes of some bytes.
pub uninterp spec fn base64_of(b: Seq<u8>) -> Seq<char>;

/// Relies on base64's `STANDARD` engine (`Engine::encode`): padded output of
/// four characters per started group of three bytes. It panics only when
/// that length overflows `usize`.
#[verifier::external_body]
fn base64_standard(b: &[u8]) -> (r: String)
    requires
        (b@.len() + 2) / 3 * 4 <= usize::MAX,
    ensures
        r@ == base64_of(b@),
        r@.len() == (b@.len() + 2) / 3 * 4,
{
    base64::engine::general_purpose::STANDARD.encode(b)
}

/// `data:<mime>;base64,<encoded bytes>`.
pub open spec fn data_url_text(mime: Seq<char>, b: Seq<u8>) -> Seq<char> {
    "data:"@ + mime + ";base64,"@ + base64_of(b)
}

/// The data URL through which the display shows a bitmap.
pub fn data_url(mime: &str, bytes: &[u8]) -> (r: String)
    requires
        bytes@.len() <= usize::MAX / 2,
    ensures
        r@ == data_url_text(mime@, bytes@),
{
    let b64 = base64_standard(bytes);
    let mut s = String::from_str("data:");
    s.append(mime);
    s.append(";base64,");
    s.append(b64.as_str());
    s
}

/// A bitmap document's content.
#[derive(Debug, Clone, PartialEq)]
pub struct BitmapContent {
    /// Width in pixels.
    pub width: u32,
    /// Height in pixels.
    pub height: u32,
    /// The image as a data URL.
    pub data_url: String,
    /// Format, such as `png`.
    pub format: String,
}

impl BitmapContent {
    /// The content of a bitmap read from a file with the given (lower-case)
    /// extension: its media type follows from the extension.
    pub fn from_file(width: u32, height: u32, bytes: &[u8], format: &str) -> (r: Self)
        requires
            bytes@.len() <= usize::MAX / 2,
        ensures
            r.width == width,
            r.height == height,
            r.data_url@ == data_url_text(mime_type_text(format@), bytes@),
            r.format@ == format@,
    {
        let mime = mime_type_for(format);
        BitmapContent {
            width,
            height,
            data_url: data_url(mime, bytes),
            format: String::from_str(format),
        }
    }

    /// The content of a bitmap received with a media type: its format
    /// follows from the media type.
    pub fn from_media(width: u32, height: u32, bytes: &[u8], mime: &str) -> (r: Self)
        requires
            bytes@.len() <= usize::MAX / 2,
        ensures
            r.width == width,
            r.height == height,
            r.data_url@ == data_url_text(mime@, bytes@),
            r.format@ == format_of_mime_text(mime@),
    {
        BitmapContent {
            width,
            height,
            data_url: data_url(mime, bytes),
            format: format_of_mime(mime),
        }
    }
}

/// A workspace failure as the host application receives it.
#[derive(Debug, Clone, PartialEq)]
pub struct WorkspaceError {
    pub message: String,
    pub code: String,
}

} // verus!
