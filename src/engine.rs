use vstd::prelude::*;
use vstd::arithmetic::div_mod::lemma_fundamental_div_mod;
use image::imageops::{resize, FilterType};
use image::{ImageFormat, RgbImage};
use crate::error::ReadThumbnailError;

verus! {

/// A decoded image: 8-bit RGB samples, row by row.
pub struct Raster {
    pub width: u32,
    pub height: u32,
    pub pixels: Vec<u8>,
}

/// What the codec library decodes from bytes: width, height and RGB samples.
pub uninterp spec fn decoded(bytes: Seq<u8>) -> Option<(u32, u32, Seq<u8>)>;

/// What the codec library's Lanczos resampling makes of a raster at a new size.
pub uninterp spec fn resampled(
    pixels: Seq<u8>,
    width: u32,
    height: u32,
    new_width: u32,
    new_height: u32,
) -> Option<Seq<u8>>;

/// What the codec library's encoder for `format` makes of a raster.
pub uninterp spec fn encoded(pixels: Seq<u8>, width: u32, height: u32, format: ImageFormat) -> Option<
    Seq<u8>,
>;

/// Relies on `image::load_from_memory`, converted to RGB with `into_rgb8`: the image
/// that the bytes hold, or `None` when no decoder accepts them.
#[verifier::external_body]
fn decode_rgb(bytes: &[u8]) -> (r: Option<Raster>)
    ensures
        r matches Some(img) ==> decoded(bytes@) == Some((img.width, img.height, img.pixels@)),
        r is None ==> decoded(bytes@) is None,
{
    match image::load_from_memory(bytes) {
        Ok(img) => {
            let rgb = img.into_rgb8();
            Some(Raster { width: rgb.width(), height: rgb.height(), pixels: rgb.into_raw() })
        },
        Err(_) => None,
    }
}

/// Relies on `image::imageops::resize` with the Lanczos filter, on a buffer made by
/// `ImageBuffer::from_raw`: the result has exactly the requested size; `from_raw`
/// refuses only a buffer too short for the dimensions.
#[verifier::external_body]
fn resample(img: Raster, new_width: u32, new_height: u32) -> (r: Option<Raster>)
    requires
        new_width <= img.width,
        new_height <= img.height,
    ensures
        r matches Some(out) ==> out.width == new_width && out.height == new_height && resampled(
            img.pixels@,
            img.width,
            img.height,
            new_width,
            new_height,
        ) == Some(out.pixels@),
        r is None ==> resampled(img.pixels@, img.width, img.height, new_width, new_height) is None,
        img.pixels@.len() >= 3 * img.width * img.height ==> r is Some,
{
    match RgbImage::from_raw(img.width, img.height, img.pixels) {
        Some(buf) => {
            let out = resize(&buf, new_width, new_height, FilterType::Lanczos3);
            Some(Raster { width: out.width(), height: out.height(), pixels: out.into_raw() })
        },
        None => None,
    }
}

/// Relies on `image::ImageBuffer::write_to`: the bytes of the raster encoded in
/// `format`, or `None` when the encoder fails.
#[verifier::external_body]
fn encode(img: &Raster, format: ImageFormat) -> (r: Option<Vec<u8>>)
    ensures
        r matches Some(b) ==> encoded(img.pixels@, img.width, img.height, format) == Some(b@),
        r is None ==> encoded(img.pixels@, img.width, img.height, format) is None,
{
    let buf = RgbImage::from_raw(img.width, img.height, img.pixels.clone())?;
    let mut out = std::io::Cursor::new(Vec::new());
    match buf.write_to(&mut out, format) {
        Ok(()) => Some(out.into_inner()),
        Err(_) => None,
    }
}

/// `d * target / largest` rounded to the nearest integer, halves up.
pub open spec fn scaled_side(d: int, target: int, largest: int) -> int {
    (2 * d * target + largest) / (2 * largest)
}

pub open spec fn max_u32(a: u32, b: u32) -> u32 {
    if a >= b {
        a
    } else {
        b
    }
}

pub open spec fn min_u32(a: u32, b: u32) -> u32 {
    if a <= b {
        a
    } else {
        b
    }
}

/// The size of the thumbnail of a `width` by `height` image whose larger side may be
/// at most `largest_side`: scaled by `min(largest_side, m) / m`, `m` the larger side,
/// so never enlarged, each side rounded and at least 1. An image with no pixels keeps
/// its size.
pub open spec fn new_size(width: u32, height: u32, largest_side: u32) -> (u32, u32) {
    let m = max_u32(width, height);
    if width == 0 || height == 0 {
        (width, height)
    } else {
        let t = min_u32(largest_side, m);
        let w = scaled_side(width as int, t as int, m as int);
        let h = scaled_side(height as int, t as int, m as int);
        ((if w < 1 { 1 } else { w }) as u32, (if h < 1 { 1 } else { h }) as u32)
    }
}

/// The two bounds that define rounding `x / m` to the nearest integer, halves up.
proof fn lemma_round_bounds(x: int, m: int)
    requires
        m > 0,
        x >= 0,
    ensures
        2 * m * ((2 * x + m) / (2 * m)) <= 2 * x + m,
        2 * x + m < 2 * m * ((2 * x + m) / (2 * m)) + 2 * m,
        (2 * x + m) / (2 * m) >= 0,
{
    lemma_fundamental_div_mod(2 * x + m, 2 * m);
    let q = (2 * x + m) / (2 * m);
    assert(q >= 0) by (nonlinear_arith)
        requires
            2 * m * q + (2 * x + m) % (2 * m) == 2 * x + m,
            (2 * x + m) % (2 * m) < 2 * m,
            m > 0,
            x >= 0,
    ;
}

/// A side scaled by `t / m` with `d <= m` stays within `[0, t]`, and within half a
/// pixel of the exact value.
proof fn lemma_scaled_side(d: int, t: int, m: int)
    requires
        0 <= d <= m,
        0 <= t <= m,
        m > 0,
    ensures
        0 <= scaled_side(d, t, m) <= t,
        scaled_side(d, t, m) <= d,
        t == m ==> scaled_side(d, t, m) == d,
        -m <= 2 * (m * scaled_side(d, t, m) - d * t) <= m,
{
    let x = d * t;
    assert(0 <= x) by (nonlinear_arith)
        requires
            x == d * t,
            0 <= d,
            0 <= t,
    ;
    assert(x <= m * t && x <= d * m) by (nonlinear_arith)
        requires
            x == d * t,
            0 <= d <= m,
            0 <= t <= m,
    ;
    lemma_round_bounds(x, m);
    let q = (2 * x + m) / (2 * m);
    assert(2 * d * t == 2 * x) by (nonlinear_arith)
        requires
            x == d * t,
    ;
    assert(scaled_side(d, t, m) == q);
    assert(q <= t) by (nonlinear_arith)
        requires
            2 * m * q <= 2 * x + m,
            x <= m * t,
            m > 0,
    ;
    assert(q <= d) by (nonlinear_arith)
        requires
            2 * m * q <= 2 * x + m,
            x <= d * m,
            m > 0,
    ;
    if t == m {
        assert(q >= d) by (nonlinear_arith)
            requires
                2 * x + m < 2 * m * q + 2 * m,
                x == d * m,
                m > 0,
        ;
    }
    assert(-m <= 2 * (m * q - x) <= m) by (nonlinear_arith)
        requires
            2 * m * q <= 2 * x + m,
            2 * x + m < 2 * m * q + 2 * m,
    ;
}

/// A side scaled and raised to at least 1 stays within `[1, min(d, t)]` and within
/// one pixel of the exact value.
proof fn lemma_clamped_side(d: int, t: int, m: int)
    requires
        1 <= d <= m,
        1 <= t <= m,
    ensures
        ({
            let q = scaled_side(d, t, m);
            let c = if q < 1 { 1 } else { q };
            &&& 1 <= c <= d
            &&& c <= t
            &&& -m <= m * c - d * t <= m
        }),
{
    lemma_scaled_side(d, t, m);
    let q = scaled_side(d, t, m);
    if q < 1 {
        assert(q == 0);
        assert(0 <= d * t) by (nonlinear_arith)
            requires
                1 <= d,
                1 <= t,
        ;
        assert(m * 1 == m);
    }
}

/// A side of the thumbnail: `d * t / m` rounded, at least 1.
fn scale_side(d: u32, t: u32, m: u32) -> (r: u32)
    requires
        d <= m,
        t <= m,
        m > 0,
    ensures
        r == (if scaled_side(d as int, t as int, m as int) < 1 {
            1
        } else {
            scaled_side(d as int, t as int, m as int)
        }),
{
    proof {
        lemma_scaled_side(d as int, t as int, m as int);
        assert((d as int) * (t as int) <= 0xffff_ffff * 0xffff_ffff) by (nonlinear_arith)
            requires
                d <= 0xffff_ffff,
                t <= 0xffff_ffff,
        ;
    }
    let x: u128 = (d as u128) * (t as u128);
    let q: u128 = (2 * x + m as u128) / (2 * m as u128);
    assert(2 * (d as int) * (t as int) == 2 * (x as int)) by (nonlinear_arith)
        requires
            x == (d as int) * (t as int),
    ;
    assert(q == scaled_side(d as int, t as int, m as int));
    if q < 1 {
        1
    } else {
        q as u32
    }
}

/// The thumbnail size for a `width` by `height` image and a bound on its larger side.
pub fn get_new_size(width: u32, height: u32, largest_side: u32) -> (r: (u32, u32))
    ensures
        r == new_size(width, height, largest_side),
{
    let m = if width >= height {
        width
    } else {
        height
    };
    if width == 0 || height == 0 {
        return (width, height);
    }
    let t = if largest_side <= m {
        largest_side
    } else {
        m
    };
    (scale_side(width, t, m), scale_side(height, t, m))
}

/// The larger side of a thumbnail is at most the bound and at most the original's
/// larger side; no side grows; and each side is within one pixel of the original side
/// scaled exactly by `t / m` (`m` the original's larger side, `t` the smaller of the
/// bound and `m`), so the aspect ratio is kept up to rounding.
pub proof fn lemma_thumbnail_size(width: u32, height: u32, largest_side: u32)
    requires
        width >= 1,
        height >= 1,
        largest_side >= 1,
    ensures
        ({
            let (nw, nh) = new_size(width, height, largest_side);
            let m = max_u32(width, height);
            let t = min_u32(largest_side, m);
            &&& max_u32(nw, nh) <= t
            &&& 1 <= nw <= width
            &&& 1 <= nh <= height
            &&& -(m as int) <= (m as int) * (nw as int) - (width as int) * (t as int) <= m as int
            &&& -(m as int) <= (m as int) * (nh as int) - (height as int) * (t as int) <= m as int
        }),
{
    let m = max_u32(width, height);
    let t = min_u32(largest_side, m);
    lemma_clamped_side(width as int, t as int, m as int);
    lemma_clamped_side(height as int, t as int, m as int);
}

/// A bound at least as large as the original's larger side leaves the size unchanged:
/// the engine never enlarges.
pub proof fn lemma_no_upscale(width: u32, height: u32, largest_side: u32)
    requires
        largest_side >= max_u32(width, height),
    ensures
        new_size(width, height, largest_side) == (width, height),
{
    let m = max_u32(width, height);
    if width != 0 && height != 0 {
        lemma_scaled_side(width as int, m as int, m as int);
        lemma_scaled_side(height as int, m as int, m as int);
    }
}

/// The raster of the thumbnail of `bytes`: decoded, then resampled to `new_size`.
pub open spec fn thumbnail_raster_of(bytes: Seq<u8>, largest_side: u32) -> Result<
    (u32, u32, Seq<u8>),
    ReadThumbnailError,
> {
    match decoded(bytes) {
        None => Err(ReadThumbnailError::DecodeError),
        Some((w, h, px)) => {
            let (nw, nh) = new_size(w, h, largest_side);
            match resampled(px, w, h, nw, nh) {
                None => Err(ReadThumbnailError::DecodeError),
                Some(out) => Ok((nw, nh, out)),
            }
        },
    }
}

/// The encoded thumbnail of `bytes`.
pub open spec fn thumbnail_of(bytes: Seq<u8>, largest_side: u32, format: ImageFormat) -> Result<
    Seq<u8>,
    ReadThumbnailError,
> {
    match thumbnail_raster_of(bytes, largest_side) {
        Err(e) => Err(e),
        Ok((w, h, px)) => match encoded(px, w, h, format) {
            Some(b) => Ok(b),
            None => Err(ReadThumbnailError::EncodeError),
        },
    }
}

/// The raster that the engine makes for a valid bound never has a larger side beyond
/// the bound or the original's larger side, and keeps the aspect ratio up to rounding.
pub proof fn lemma_thumbnail_raster_bounded(bytes: Seq<u8>, largest_side: u32)
    requires
        largest_side >= 1,
        decoded(bytes) matches Some((w, h, _)) && w >= 1 && h >= 1,
        thumbnail_raster_of(bytes, largest_side) is Ok,
    ensures
        ({
            let (w, h, _) = decoded(bytes)->Some_0;
            let (nw, nh, _) = thumbnail_raster_of(bytes, largest_side)->Ok_0;
            let m = max_u32(w, h);
            let t = min_u32(largest_side, m);
            &&& max_u32(nw, nh) <= t
            &&& -(m as int) <= (m as int) * (nw as int) - (w as int) * (t as int) <= m as int
            &&& -(m as int) <= (m as int) * (nh as int) - (h as int) * (t as int) <= m as int
        }),
{
    let (w, h, _) = decoded(bytes)->Some_0;
    lemma_thumbnail_size(w, h, largest_side);
}

/// Makes thumbnails of one size bound in one format. It does no I/O: callers run it
/// on a worker pool and persist the result themselves.
pub struct ThumbnailProcessor {
    pub requested_format: ImageFormat,
    pub largest_side: u32,
}

impl ThumbnailProcessor {
    /// Decodes `bytes` and resamples the image to the thumbnail size.
    pub fn make_raster(&self, bytes: &[u8]) -> (r: Result<Raster, ReadThumbnailError>)
        ensures
            r matches Ok(img) ==> thumbnail_raster_of(bytes@, self.largest_side) == Ok::<
                (u32, u32, Seq<u8>),
                ReadThumbnailError,
            >((img.width, img.height, img.pixels@)),
            r matches Err(e) ==> thumbnail_raster_of(bytes@, self.largest_side) == Err::<
                (u32, u32, Seq<u8>),
                ReadThumbnailError,
            >(e),
    {
        let img = match decode_rgb(bytes) {
            Some(img) => img,
            None => return Err(ReadThumbnailError::DecodeError),
        };
        let (width, height) = self.get_new_size(&img);
        proof {
            if img.width >= 1 && img.height >= 1 {
                let m = max_u32(img.width, img.height);
                let t = min_u32(self.largest_side, m);
                lemma_scaled_side(img.width as int, t as int, m as int);
                lemma_scaled_side(img.height as int, t as int, m as int);
            }
        }
        match resample(img, width, height) {
            Some(out) => Ok(out),
            None => Err(ReadThumbnailError::DecodeError),
        }
    }

    /// The thumbnail of `bytes`, encoded in the requested format.
    pub fn process_image(&self, bytes: &[u8]) -> (r: Result<Vec<u8>, ReadThumbnailError>)
        ensures
            r matches Ok(b) ==> thumbnail_of(bytes@, self.largest_side, self.requested_format)
                == Ok::<Seq<u8>, ReadThumbnailError>(b@),
            r matches Err(e) ==> thumbnail_of(bytes@, self.largest_side, self.requested_format)
                == Err::<Seq<u8>, ReadThumbnailError>(e),
    {
        let img = match self.make_raster(bytes) {
            Ok(img) => img,
            Err(e) => return Err(e),
        };
        match encode(&img, self.requested_format) {
            Some(b) => Ok(b),
            None => Err(ReadThumbnailError::EncodeError),
        }
    }

    /// The thumbnail size for a decoded image.
    pub fn get_new_size(&self, img: &Raster) -> (r: (u32, u32))
        ensures
            r == new_size(img.width, img.height, self.largest_side),
    {
        get_new_size(img.width, img.height, self.largest_side)
    }
}

} // verus!
