use image::ImageFormat;
use imdn::format::resolve_format;
use imdn::mime::mime_for_path;
use imdn::original::Image;

#[test]
fn mime_from_extension() {
    assert_eq!(mime_for_path("cat.png"), "image/png");
    assert_eq!(mime_for_path("pets/cat.jpg"), "image/jpeg");
    assert_eq!(mime_for_path("pets/cat.JPEG"), "image/jpeg");
    assert_eq!(mime_for_path("archive.tar.gz"), "application/gzip");
}

#[test]
fn mime_defaults_to_octet_stream() {
    assert_eq!(mime_for_path("README"), "application/octet-stream");
    assert_eq!(mime_for_path(".bashrc"), "application/octet-stream");
    assert_eq!(mime_for_path("file.nosuchext"), "application/octet-stream");
    assert_eq!(mime_for_path("dir.d/file"), "application/octet-stream");
    assert_eq!(mime_for_path("trailing."), "application/octet-stream");
    assert_eq!(mime_for_path(""), "application/octet-stream");
}

#[test]
fn known_formats_are_recognised() {
    assert_eq!(resolve_format("png"), ImageFormat::Png);
    assert_eq!(resolve_format("webp"), ImageFormat::WebP);
    assert_eq!(resolve_format("jpeg"), ImageFormat::Jpeg);
    assert_eq!(resolve_format("GIF"), ImageFormat::Gif);
}

#[test]
fn unknown_format_falls_back_to_jpeg() {
    assert_eq!(resolve_format("bogus"), ImageFormat::Jpeg);
    assert_eq!(resolve_format(""), ImageFormat::Jpeg);
}

#[test]
fn original_bytes_are_kept_exactly() {
    let bytes = vec![0u8, 1, 2, 255, 128];
    let img = Image::from_bytes("pets/cat.png", bytes.clone());
    assert_eq!(img.get_bytes(), &bytes);
    assert_eq!(img.get_mime(), "image/png");
    let (b, m) = img.into_parts();
    assert_eq!(b, bytes);
    assert_eq!(m, "image/png");
}
