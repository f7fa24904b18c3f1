use nsvg::{scaled_extent, Error, RasterTarget, SvgImage};

const ONE: u64 = 1 << 32;

fn spiral() -> SvgImage {
    SvgImage::from_parsed(0x1000, 256 * ONE, 256 * ONE).unwrap()
}

#[test]
fn rasterize_256_at_scale_one() {
    let t = spiral().raster_target(ONE).unwrap();
    assert_eq!((t.width, t.height, t.stride), (256, 256, 1024));
    assert_eq!(t.pixels.len(), 262144);
    let (w, h, raw) = t.finish_raw_rgba().unwrap();
    assert_eq!((w, h), (256, 256));
    assert_eq!(raw.len(), 262144);
}

#[test]
fn rasterize_256_at_scale_two() {
    let t = spiral().raster_target(2 * ONE).unwrap();
    assert_eq!((t.width, t.height, t.stride), (512, 512, 2048));
    let (w, h, raw) = t.finish_raw_rgba().unwrap();
    assert_eq!((w, h), (512, 512));
    assert_eq!(raw.len(), 1048576);
}

#[test]
fn rasterize_to_image_has_declared_size() {
    let mut t = spiral().raster_target(ONE).unwrap();
    t.pixels[0] = 7;
    t.pixels[262143] = 9;
    let img = t.finish_image().unwrap();
    assert_eq!(img.dimensions(), (256, 256));
    let raw = img.into_raw();
    assert_eq!(raw.len(), 262144);
    assert_eq!((raw[0], raw[1], raw[262143]), (7, 0, 9));
}

#[test]
fn extent_drops_the_fraction() {
    assert_eq!(scaled_extent(256 * ONE, ONE), 256);
    assert_eq!(scaled_extent(100 * ONE, ONE + ONE / 2), 150);
    assert_eq!(scaled_extent(3 * ONE, ONE / 2), 1);
    assert_eq!(scaled_extent(ONE - 1, ONE), 0);
    assert_eq!(scaled_extent(u64::MAX, u64::MAX), u64::MAX - 1);
}

#[test]
fn scale_zero_gives_an_empty_buffer() {
    let t = spiral().raster_target(0).unwrap();
    assert_eq!((t.width, t.height, t.stride), (0, 0, 0));
    assert!(t.pixels.is_empty());
    assert_eq!(t.finish_raw_rgba().unwrap(), (0, 0, Vec::new()));
}

#[test]
fn buffer_length_grows_as_square_of_scale() {
    let a = spiral().raster_target(ONE).unwrap().pixels.len();
    let b = spiral().raster_target(3 * ONE).unwrap().pixels.len();
    assert_eq!(b, 9 * a);
    let odd = SvgImage::from_parsed(1, 10 * ONE + ONE / 2, 5 * ONE + ONE / 2).unwrap();
    let c = odd.raster_target(ONE).unwrap();
    let d = odd.raster_target(2 * ONE).unwrap();
    assert_eq!((c.width, c.height), (10, 5));
    assert_eq!((d.width, d.height), (21, 11));
    assert!(4 * c.pixels.len() <= d.pixels.len());
    assert!(d.pixels.len() < 4 * 4 * 11 * 6);
}

#[test]
fn oversized_raster_is_a_rasterize_error() {
    let huge = SvgImage::from_parsed(1, 1 << 62, ONE).unwrap();
    assert!(matches!(huge.raster_target(ONE), Err(Error::RasterizeError)));
    let tall = SvgImage::from_parsed(1, ONE, 1 << 63).unwrap();
    assert!(matches!(tall.raster_target(ONE), Err(Error::RasterizeError)));
}

#[test]
fn mismatched_buffer_is_a_rasterize_error() {
    let short = RasterTarget { width: 2, height: 2, stride: 8, pixels: vec![0u8; 15] };
    assert!(matches!(short.finish_raw_rgba(), Err(Error::RasterizeError)));
    let long = RasterTarget { width: 2, height: 2, stride: 8, pixels: vec![0u8; 17] };
    assert!(matches!(long.finish_image(), Err(Error::RasterizeError)));
}
