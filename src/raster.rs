use vstd::prelude::*;
use crate::document::SvgImage;
use crate::error::Error;

verus! {

/// One unit of a 32.32 fixed-point length or scale.
pub const FIXED_ONE: u64 = 4294967296;

/// Bytes of one RGBA pixel.
pub const BYTES_PER_PIXEL: u64 = 4;

/// The largest size, stride or height the engine's `int` parameters take.
pub const MAX_ENGINE_INT: u64 = 2147483647;

/// `floor(len * scale)` in whole pixels, both factors in 32.32 fixed point.
pub open spec fn extent_px(len: u64, scale: u64) -> int {
    (len as int * scale as int) / (FIXED_ONE as int * FIXED_ONE as int)
}

/// Bytes in a buffer of `w` by `h` RGBA pixels.
pub open spec fn capacity_of(w: int, h: int) -> int {
    BYTES_PER_PIXEL as int * w * h
}

/// A `w` by `h` buffer can be described to the engine and held in memory.
pub open spec fn raster_fits(w: int, h: int) -> bool {
    &&& BYTES_PER_PIXEL as int * w <= MAX_ENGINE_INT as int
    &&& h <= MAX_ENGINE_INT as int
    &&& capacity_of(w, h) <= usize::MAX as int
}

/// Scales a fixed-point length and drops the fraction: whole pixels.
pub fn scaled_extent(len: u64, scale: u64) -> (r: u64)
    ensures
        r == extent_px(len, scale),
{
    proof {
        assert(len as int * scale as int <= u64::MAX as int * u64::MAX as int) by (nonlinear_arith);
        assert((u64::MAX as int * u64::MAX as int) < (u128::MAX as int));
    }
    let p: u128 = (len as u128) * (scale as u128);
    assert(p / 18446744073709551616u128 <= 18446744073709551615u128) by (bit_vector);
    (p / 18446744073709551616u128) as u64
}

/// The buffer the engine renders into: `height` rows of `stride` bytes,
/// `width` RGBA pixels each, row-major from the top left.
pub struct RasterTarget {
    pub width: u32,
    pub height: u32,
    pub stride: u32,
    pub pixels: Vec<u8>,
}

impl RasterTarget {
    /// Size, stride and buffer agree with one another and with the engine's
    /// limits.
    pub open spec fn wf(&self) -> bool {
        &&& raster_fits(self.width as int, self.height as int)
        &&& self.stride as int == BYTES_PER_PIXEL as int * self.width as int
        &&& self.pixels@.len() == capacity_of(self.width as int, self.height as int)
    }

    /// Hands back the size and the pixels, once the buffer still has the size
    /// its image declares.
    pub fn finish_raw_rgba(self) -> (r: Result<(u32, u32, Vec<u8>), Error>)
        ensures
            r is Ok <==> self.pixels@.len() == capacity_of(self.width as int, self.height as int),
            r matches Ok(t) ==> t.0 == self.width && t.1 == self.height && t.2@ == self.pixels@,
            r matches Err(e) ==> e is RasterizeError,
    {
        let w = self.width as u64;
        let h = self.height as u64;
        proof {
            assert(w as int * h as int <= u32::MAX as int * u32::MAX as int) by (nonlinear_arith)
                requires w <= u32::MAX, h <= u32::MAX;
        }
        let wh: u64 = w * h;
        let n: usize = self.pixels.len();
        proof {
            assert(capacity_of(w as int, h as int) == 4 * (w as int * h as int)) by (nonlinear_arith);
            assert(n as int <= u64::MAX as int);
        }
        if wh > u64::MAX / 4 {
            return Err(Error::RasterizeError);
        }
        let cap: u64 = BYTES_PER_PIXEL * wh;
        if n as u64 != cap {
            return Err(Error::RasterizeError);
        }
        Ok((self.width, self.height, self.pixels))
    }

    /// Turns the rendered buffer into an RGBA image of its declared size.
    pub fn finish_image(self) -> (r: Result<RgbaImage, Error>)
        ensures
            r is Ok <==> self.pixels@.len() == capacity_of(self.width as int, self.height as int)
                && buffer_holds(self.width as int, self.height as int, self.pixels@.len() as int),
            r matches Ok(img) ==> image_size(img) == (self.width, self.height) && image_bytes(img)
                == self.pixels@,
            r matches Err(e) ==> e is RasterizeError,
    {
        match self.finish_raw_rgba() {
            Ok((w, h, pixels)) => {
                let n: usize = pixels.len();
                if w as u64 * BYTES_PER_PIXEL > usize::MAX as u64 {
                    return Err(Error::RasterizeError);
                }
                assert(buffer_holds(w as int, h as int, n as int));
                match rgba_from_raw(w, h, pixels) {
                    Some(img) => Ok(img),
                    None => Err(Error::RasterizeError),
                }
            },
            Err(e) => Err(e),
        }
    }
}

/// `4 * w` and `4 * w * h` fit in `usize`, and the latter is at most `len`.
pub open spec fn buffer_holds(w: int, h: int, len: int) -> bool {
    &&& BYTES_PER_PIXEL as int * w <= usize::MAX as int
    &&& capacity_of(w, h) <= usize::MAX as int
    &&& capacity_of(w, h) <= len
}

/// An RGBA image with eight bits per channel, held by the `image` crate.
#[verifier::external_body]
pub struct RgbaImage {
    inner: image::RgbaImage,
}

/// The pixel bytes an image holds, row-major, four per pixel.
pub uninterp spec fn image_bytes(img: RgbaImage) -> Seq<u8>;

/// The width and height an image was made with.
pub uninterp spec fn image_size(img: RgbaImage) -> (u32, u32);

/// Relies on image's `ImageBuffer::from_raw`: it gives an image exactly when
/// `4 * width` and `4 * width * height` fit in `usize` and the buffer holds at
/// least that many bytes, and the image keeps the size and the buffer it was given.
#[verifier::external_body]
fn rgba_from_raw(width: u32, height: u32, buf: Vec<u8>) -> (r: Option<RgbaImage>)
    ensures
        r is Some <==> buffer_holds(width as int, height as int, buf@.len() as int),
        r matches Some(img) ==> image_size(img) == (width, height) && image_bytes(img) == buf@,
{
    image::RgbaImage::from_raw(width, height, buf).map(|inner| RgbaImage { inner })
}

impl RgbaImage {
    /// Relies on image's `ImageBuffer::dimensions`: the size the image was
    /// made with.
    #[verifier::external_body]
    pub fn dimensions(&self) -> (r: (u32, u32))
        ensures
            r == image_size(*self),
    {
        self.inner.dimensions()
    }

    /// Relies on image's `ImageBuffer::into_raw`: the buffer the image holds.
    #[verifier::external_body]
    pub fn into_raw(self) -> (r: Vec<u8>)
        ensures
            r@ == image_bytes(self),
    {
        self.inner.into_raw()
    }
}

/// `n` zero bytes.
fn zeroed(n: usize) -> (r: Vec<u8>)
    ensures
        r@ == Seq::new(n as nat, |_i: int| 0u8),
{
    let mut v: Vec<u8> = Vec::with_capacity(n);
    let mut i: usize = 0;
    while i < n
        invariant
            i <= n,
            v@ == Seq::new(i as nat, |_i: int| 0u8),
        decreases n - i,
    {
        v.push(0u8);
        i = i + 1;
        assert(v@ =~= Seq::new(i as nat, |_i: int| 0u8));
    }
    v
}

impl SvgImage {
    /// Lays out the buffer for rendering this document at `scale` (32.32
    /// fixed point): `floor(width * scale)` by `floor(height * scale)` pixels,
    /// four bytes each, all zero until the engine writes them.
    ///
    /// A size the engine or memory cannot take is a rasterize error.
    pub fn raster_target(&self, scale: u64) -> (r: Result<RasterTarget, Error>)
        ensures
            r is Ok <==> raster_fits(
                extent_px(self.spec_width(), scale),
                extent_px(self.spec_height(), scale),
            ),
            r matches Ok(t) ==> {
                &&& t.wf()
                &&& t.width as int == extent_px(self.spec_width(), scale)
                &&& t.height as int == extent_px(self.spec_height(), scale)
                &&& t.pixels@ == Seq::new(t.pixels@.len(), |_i: int| 0u8)
            },
            r matches Err(e) ==> e is RasterizeError,
    {
        let w = scaled_extent(self.width(), scale);
        let h = scaled_extent(self.height(), scale);
        if w > MAX_ENGINE_INT / BYTES_PER_PIXEL || h > MAX_ENGINE_INT {
            return Err(Error::RasterizeError);
        }
        let stride: u64 = BYTES_PER_PIXEL * w;
        proof {
            assert(stride as int * h as int <= MAX_ENGINE_INT as int * MAX_ENGINE_INT as int) by (nonlinear_arith)
                requires stride <= MAX_ENGINE_INT, h <= MAX_ENGINE_INT;
        }
        let cap: u64 = stride * h;
        if cap > usize::MAX as u64 {
            return Err(Error::RasterizeError);
        }
        let pixels = zeroed(cap as usize);
        Ok(RasterTarget { width: w as u32, height: h as u32, stride: stride as u32, pixels })
    }
}

/// Scaling by a whole factor `k` scales a floored quotient by `k`, give or
/// take less than `k`.
proof fn lemma_floor_of_multiple(a: int, k: int, d: int)
    requires
        a >= 0,
        k >= 1,
        d > 0,
    ensures
        k * (a / d) <= (k * a) / d,
        (k * a) / d < k * (a / d + 1),
{
    let q = a / d;
    let r = a % d;
    let y = (k * a) / d;
    let s = (k * a) % d;
    vstd::arithmetic::div_mod::lemma_fundamental_div_mod(a, d);
    vstd::arithmetic::div_mod::lemma_fundamental_div_mod(k * a, d);
    vstd::arithmetic::div_mod::lemma_mod_bound(a, d);
    vstd::arithmetic::div_mod::lemma_mod_bound(k * a, d);
    assert(k * q <= y) by (nonlinear_arith)
        requires
            a == d * q + r,
            k * a == d * y + s,
            0 <= r < d,
            0 <= s < d,
            k >= 1,
    ;
    assert(y < k * (q + 1)) by (nonlinear_arith)
        requires
            a == d * q + r,
            k * a == d * y + s,
            0 <= r < d,
            0 <= s < d,
            k >= 1,
    ;
}

/// A quotient with no remainder scales exactly.
proof fn lemma_exact_multiple(a: int, k: int, d: int)
    requires
        a >= 0,
        k >= 1,
        d > 0,
        a % d == 0,
    ensures
        (k * a) / d == k * (a / d),
{
    vstd::arithmetic::div_mod::lemma_fundamental_div_mod(a, d);
    let q = a / d;
    assert(k * a == (k * q) * d) by (nonlinear_arith)
        requires
            a == d * q + 0,
    ;
    vstd::arithmetic::div_mod::lemma_div_by_multiple(k * q, d);
}

/// Rendering at `k` times a scale gives a pixel buffer between `k * k` times
/// the first one and `k * k` times the buffer one pixel wider and taller:
/// buffer lengths grow as the square of the ratio of the scales, up to the
/// rounding down of each side, and exactly where nothing is rounded.
pub proof fn lemma_capacity_scales_as_square(width: u64, height: u64, scale: u64, k: u64)
    requires
        k >= 1,
        k * scale <= u64::MAX,
    ensures
        ({
            let w1 = extent_px(width, scale);
            let h1 = extent_px(height, scale);
            let w2 = extent_px(width, (k * scale) as u64);
            let h2 = extent_px(height, (k * scale) as u64);
            &&& k * w1 <= w2 < k * (w1 + 1)
            &&& k * h1 <= h2 < k * (h1 + 1)
            &&& k * k * capacity_of(w1, h1) <= capacity_of(w2, h2)
            &&& capacity_of(w2, h2) < k * k * capacity_of(w1 + 1, h1 + 1)
            // With no fraction to drop at the first scale, the square is exact.
            &&& (width as int * scale as int) % (FIXED_ONE as int * FIXED_ONE as int) == 0
                && (height as int * scale as int) % (FIXED_ONE as int * FIXED_ONE as int) == 0
                ==> capacity_of(w2, h2) == k * k * capacity_of(w1, h1)
        }),
{
    let d = FIXED_ONE as int * FIXED_ONE as int;
    let ks = (k * scale) as u64;
    let w1 = extent_px(width, scale);
    let h1 = extent_px(height, scale);
    let w2 = extent_px(width, ks);
    let h2 = extent_px(height, ks);
    assert(width as int * ks as int == k as int * (width as int * scale as int)) by (nonlinear_arith)
        requires ks as int == k as int * scale as int;
    assert(height as int * ks as int == k as int * (height as int * scale as int)) by (nonlinear_arith)
        requires ks as int == k as int * scale as int;
    assert(width as int * scale as int >= 0) by (nonlinear_arith);
    assert(height as int * scale as int >= 0) by (nonlinear_arith);
    lemma_floor_of_multiple(width as int * scale as int, k as int, d);
    lemma_floor_of_multiple(height as int * scale as int, k as int, d);
    vstd::arithmetic::div_mod::lemma_div_pos_is_pos(width as int * scale as int, d);
    vstd::arithmetic::div_mod::lemma_div_pos_is_pos(height as int * scale as int, d);
    let kk = k as int;
    if (width as int * scale as int) % d == 0 && (height as int * scale as int) % d == 0 {
        lemma_exact_multiple(width as int * scale as int, kk, d);
        lemma_exact_multiple(height as int * scale as int, kk, d);
        assert(capacity_of(w2, h2) == kk * kk * capacity_of(w1, h1)) by (nonlinear_arith)
            requires
                w2 == kk * w1,
                h2 == kk * h1,
        ;
    }
    assert(kk * kk * capacity_of(w1, h1) <= capacity_of(w2, h2)) by (nonlinear_arith)
        requires
            0 <= kk * w1 <= w2,
            0 <= kk * h1 <= h2,
            w1 >= 0,
            h1 >= 0,
    ;
    assert(capacity_of(w2, h2) < kk * kk * capacity_of(w1 + 1, h1 + 1)) by (nonlinear_arith)
        requires
            0 <= w2 < kk * (w1 + 1),
            0 <= h2 < kk * (h1 + 1),
    ;
}

} // verus!
