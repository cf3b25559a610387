use image::{ImageFormat, RgbImage};
use imdn::engine::{get_new_size, ThumbnailProcessor};
use imdn::error::ReadThumbnailError;
use std::io::Cursor;

fn png_of_size(width: u32, height: u32) -> Vec<u8> {
    let img = RgbImage::from_fn(width, height, |x, y| {
        image::Rgb([(x % 256) as u8, (y % 256) as u8, ((x + y) % 256) as u8])
    });
    let mut out = Cursor::new(Vec::new());
    img.write_to(&mut out, ImageFormat::Png).unwrap();
    out.into_inner()
}

fn dimensions_of(bytes: &[u8]) -> (u32, u32) {
    let img = image::load_from_memory(bytes).unwrap();
    (img.width(), img.height())
}

#[test]
fn downscale_800_by_600_to_400() {
    assert_eq!(get_new_size(800, 600, 400), (400, 300));
}

#[test]
fn no_upscale_past_the_original() {
    assert_eq!(get_new_size(800, 600, 2000), (800, 600));
    assert_eq!(get_new_size(800, 600, 800), (800, 600));
}

#[test]
fn sides_round_to_nearest_and_stay_at_least_one() {
    assert_eq!(get_new_size(1000, 1, 10), (10, 1));
    assert_eq!(get_new_size(3, 2, 2), (2, 1));
    assert_eq!(get_new_size(600, 800, 400), (300, 400));
    assert_eq!(get_new_size(1001, 333, 100), (100, 33));
    assert_eq!(get_new_size(5, 3, 2), (2, 1));
}

#[test]
fn zero_bound_gives_one_pixel() {
    assert_eq!(get_new_size(800, 600, 0), (1, 1));
}

#[test]
fn empty_image_keeps_its_size() {
    assert_eq!(get_new_size(0, 5, 10), (0, 5));
    assert_eq!(get_new_size(0, 0, 10), (0, 0));
}

#[test]
fn largest_sizes_do_not_overflow() {
    assert_eq!(get_new_size(u32::MAX, u32::MAX, u32::MAX), (u32::MAX, u32::MAX));
    assert_eq!(get_new_size(u32::MAX, 1, 2), (2, 1));
    assert_eq!(get_new_size(u32::MAX, u32::MAX - 1, u32::MAX - 1), (u32::MAX - 1, u32::MAX - 2));
}

#[test]
fn thumbnail_of_800_by_600_png_bounded_by_400() {
    let p = ThumbnailProcessor { requested_format: ImageFormat::Png, largest_side: 400 };
    let out = p.process_image(&png_of_size(800, 600)).unwrap();
    assert_eq!(dimensions_of(&out), (400, 300));
    assert_eq!(image::guess_format(&out).unwrap(), ImageFormat::Png);
}

#[test]
fn thumbnail_bounded_by_2000_keeps_800_by_600() {
    let p = ThumbnailProcessor { requested_format: ImageFormat::Jpeg, largest_side: 2000 };
    let out = p.process_image(&png_of_size(800, 600)).unwrap();
    assert_eq!(dimensions_of(&out), (800, 600));
    assert_eq!(image::guess_format(&out).unwrap(), ImageFormat::Jpeg);
}

#[test]
fn thumbnail_respects_bound_and_aspect() {
    for (w, h, bound) in [(640u32, 480u32, 100u32), (97, 301, 50), (10, 10, 3), (300, 7, 64)] {
        let p = ThumbnailProcessor { requested_format: ImageFormat::Png, largest_side: bound };
        let (nw, nh) = dimensions_of(&p.process_image(&png_of_size(w, h)).unwrap());
        let m = w.max(h);
        let t = bound.min(m);
        assert!(nw.max(nh) <= t);
        let dw = (m as i64) * (nw as i64) - (w as i64) * (t as i64);
        let dh = (m as i64) * (nh as i64) - (h as i64) * (t as i64);
        assert!(dw.abs() <= m as i64);
        assert!(dh.abs() <= m as i64);
    }
}

#[test]
fn raster_has_the_computed_size() {
    let p = ThumbnailProcessor { requested_format: ImageFormat::Png, largest_side: 400 };
    let r = p.make_raster(&png_of_size(800, 600)).unwrap();
    assert_eq!((r.width, r.height), (400, 300));
    assert_eq!(r.pixels.len(), 400 * 300 * 3);
    assert_eq!(p.get_new_size(&r), (400, 300));
}

#[test]
fn same_input_gives_identical_bytes() {
    let p = ThumbnailProcessor { requested_format: ImageFormat::Png, largest_side: 120 };
    let src = png_of_size(320, 200);
    assert_eq!(p.process_image(&src).unwrap(), p.process_image(&src).unwrap());
}

#[test]
fn garbage_is_a_decode_error() {
    let p = ThumbnailProcessor { requested_format: ImageFormat::Png, largest_side: 100 };
    assert_eq!(p.process_image(b"not an image").err(), Some(ReadThumbnailError::DecodeError));
    assert_eq!(p.process_image(&[]).err(), Some(ReadThumbnailError::DecodeError));
}

#[test]
fn format_without_encoder_is_an_encode_error() {
    let p = ThumbnailProcessor { requested_format: ImageFormat::Avif, largest_side: 100 };
    assert_eq!(
        p.process_image(&png_of_size(20, 20)).err(),
        Some(ReadThumbnailError::EncodeError)
    );
}
