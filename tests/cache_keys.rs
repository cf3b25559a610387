use image::ImageFormat;
use imdn::cache::{get_cache_key, try_get_cache_path};

#[test]
fn cache_key_encodes_the_bound() {
    assert_eq!(get_cache_key(400), "thumb_lte400");
    assert_eq!(get_cache_key(0), "thumb_lte0");
    assert_eq!(get_cache_key(7), "thumb_lte7");
    assert_eq!(get_cache_key(10), "thumb_lte10");
    assert_eq!(get_cache_key(u32::MAX), "thumb_lte4294967295");
}

#[test]
fn cache_path_layout() {
    let dir = Some(String::from("/cache"));
    assert_eq!(
        try_get_cache_path(&dir, "cat.png", ImageFormat::Png, 400),
        Some(String::from("/cache/cat.png_thumb_lte400.png"))
    );
    assert_eq!(
        try_get_cache_path(&dir, "pets/cat.png", ImageFormat::Jpeg, 512),
        Some(String::from("/cache/pets/cat.png_thumb_lte512.jpg"))
    );
    let slashed = Some(String::from("/cache/"));
    assert_eq!(
        try_get_cache_path(&slashed, "cat.png", ImageFormat::WebP, 1),
        Some(String::from("/cache/cat.png_thumb_lte1.webp"))
    );
}

#[test]
fn cache_disabled_gives_no_path() {
    assert_eq!(try_get_cache_path(&None, "cat.png", ImageFormat::Png, 400), None);
}

#[test]
fn equal_specs_share_a_path_and_different_bounds_do_not() {
    let dir = Some(String::from("/cache"));
    let a = try_get_cache_path(&dir, "cat.png", ImageFormat::Png, 40);
    let b = try_get_cache_path(&dir, "cat.png", ImageFormat::Png, 40);
    let c = try_get_cache_path(&dir, "cat.png", ImageFormat::Png, 400);
    assert_eq!(a, b);
    assert_ne!(a, c);
}
