use vstd::prelude::*;
use image::ImageFormat;

verus! {

/// The codec library's enumeration of image formats. Its variants hold no data, so
/// verified code may name them (the JPEG fallback) and compare them.
#[verifier::external_type_specification]
pub struct ExImageFormat(ImageFormat);

/// The format that the codec library recognises by a file extension.
pub uninterp spec fn format_for_extension(ext: Seq<char>) -> Option<ImageFormat>;

/// The MIME type of a format.
pub uninterp spec fn format_mime(f: ImageFormat) -> Seq<char>;

/// The first of the file extensions listed for a format.
pub uninterp spec fn format_extension(f: ImageFormat) -> Option<Seq<char>>;

/// Relies on `image::ImageFormat::from_extension`: the format named by an extension,
/// if the codec library knows one.
#[verifier::external_body]
fn parse_extension(ext: &str) -> (r: Option<ImageFormat>)
    ensures
        r == format_for_extension(ext@),
{
    ImageFormat::from_extension(ext)
}

/// Relies on `image::ImageFormat::to_mime_type`: the MIME type of a format.
#[verifier::external_body]
pub(crate) fn mime_of(f: ImageFormat) -> (r: String)
    ensures
        r@ == format_mime(f),
{
    f.to_mime_type().to_string()
}

/// Relies on `image::ImageFormat::extensions_str`: its first entry, the canonical
/// extension of the format.
#[verifier::external_body]
pub(crate) fn first_extension(f: ImageFormat) -> (r: Option<String>)
    ensures
        r matches Some(e) ==> format_extension(f) == Some(e@),
        r is None ==> format_extension(f) is None,
{
    f.extensions_str().first().map(|e| e.to_string())
}

/// The format used when a request names none that is known.
pub open spec fn fallback_format() -> ImageFormat {
    ImageFormat::Jpeg
}

/// The output format for a requested extension: the one it names, else JPEG.
pub open spec fn requested_format(ext: Seq<char>) -> ImageFormat {
    match format_for_extension(ext) {
        Some(f) => f,
        None => fallback_format(),
    }
}

/// Reads the requested output format. An extension that names no known format falls
/// back to JPEG; this never fails.
pub fn resolve_format(requested_extension: &str) -> (r: ImageFormat)
    ensures
        r == requested_format(requested_extension@),
        format_for_extension(requested_extension@) is None ==> r == fallback_format(),
{
    match parse_extension(requested_extension) {
        Some(f) => f,
        None => ImageFormat::Jpeg,
    }
}

} // verus!
