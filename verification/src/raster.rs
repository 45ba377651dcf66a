use vstd::prelude::*;

verus! {

/// An 8-bit RGB colour.
#[derive(Debug, Clone, Copy, PartialEq, Eq, Structural)]
pub struct Rgb {
    pub r: u8,
    pub g: u8,
    pub b: u8,
}

/// The square of a number.
pub open spec fn square(v: int) -> int {
    v * v
}

/// The squared Euclidean distance between two colours in RGB space.
pub open spec fn color_dist2(a: Rgb, b: Rgb) -> int {
    square(a.r - b.r) + square(a.g - b.g) + square(a.b - b.b)
}

/// The squared colour distance, computed exactly.
pub fn color_distance2(a: Rgb, b: Rgb) -> (d: u32)
    ensures
        d == color_dist2(a, b),
        d <= 3 * 255 * 255,
{
    let dr: i32 = a.r as i32 - b.r as i32;
    let dg: i32 = a.g as i32 - b.g as i32;
    let db: i32 = a.b as i32 - b.b as i32;
    assert(dr * dr <= 255 * 255) by (nonlinear_arith)
        requires
            -255 <= dr <= 255,
    ;
    assert(dg * dg <= 255 * 255) by (nonlinear_arith)
        requires
            -255 <= dg <= 255,
    ;
    assert(db * db <= 255 * 255) by (nonlinear_arith)
        requires
            -255 <= db <= 255,
    ;
    assert(0 <= dr * dr && 0 <= dg * dg && 0 <= db * db) by (nonlinear_arith);
    (dr * dr + dg * dg + db * db) as u32
}

/// A row-major RGB image with three bytes per pixel, as the curve tracer reads it. Bytes past
/// the last pixel are ignored. Its sides fit in an `i32`, the coordinate type of the tracer.
pub struct RgbRaster {
    width: u32,
    height: u32,
    data: Vec<u8>,
}

/// Position of the first byte of pixel `(x, y)` in a row-major RGB buffer of the given width.
pub open spec fn byte_offset(width: int, x: int, y: int) -> int {
    3 * (y * width + x)
}

/// Pixels of a `width` x `height` buffer start inside the buffer, with room for three bytes.
pub proof fn lemma_pixel_in_buffer(width: int, height: int, x: int, y: int)
    requires
        0 <= x < width,
        0 <= y < height,
    ensures
        0 <= y * width,
        y * width + x < width * height,
        0 <= byte_offset(width, x, y),
        byte_offset(width, x, y) + 3 <= 3 * width * height,
{
    assert(0 <= y * width) by (nonlinear_arith)
        requires
            0 <= y,
            0 <= width,
    ;
    assert(y * width + x + 1 <= height * width) by (nonlinear_arith)
        requires
            0 <= x < width,
            0 <= y < height,
    ;
    assert(3 * width * height == 3 * (height * width)) by (nonlinear_arith);
    assert(width * height == height * width) by (nonlinear_arith);
}

impl RgbRaster {
    #[verifier::type_invariant]
    spec fn well_formed(self) -> bool {
        &&& self.width <= i32::MAX
        &&& self.height <= i32::MAX
        &&& self.data@.len() >= 3 * self.width * self.height
    }

    /// The number of columns.
    pub closed spec fn spec_width(&self) -> int {
        self.width as int
    }

    /// The number of rows.
    pub closed spec fn spec_height(&self) -> int {
        self.height as int
    }

    /// The colour at column `x`, row `y`.
    pub closed spec fn pixel_at(&self, x: int, y: int) -> Rgb {
        let i = byte_offset(self.width as int, x, y);
        Rgb { r: self.data@[i], g: self.data@[i + 1], b: self.data@[i + 2] }
    }

    /// Builds a raster from row-major RGB bytes. `None` when there are fewer than three bytes
    /// per pixel or a side does not fit in an `i32`.
    pub fn from_rgb_bytes(width: u32, height: u32, data: Vec<u8>) -> (r: Option<RgbRaster>)
        ensures
            r is Some <==> (width <= i32::MAX && height <= i32::MAX && data@.len() >= 3 * width
                * height),
            r matches Some(img) ==> {
                &&& img.spec_width() == width
                &&& img.spec_height() == height
                &&& forall|x: int, y: int|
                    0 <= x < width && 0 <= y < height ==> #[trigger] img.pixel_at(x, y) == Rgb {
                        r: data@[byte_offset(width as int, x, y)],
                        g: data@[byte_offset(width as int, x, y) + 1],
                        b: data@[byte_offset(width as int, x, y) + 2],
                    }
            },
    {
        let n: usize = data.len();
        if width > 0x7fff_ffff || height > 0x7fff_ffff {
            return None;
        }
        assert(width * height <= 0x7fff_ffff * 0x7fff_ffff) by (nonlinear_arith)
            requires
                width <= 0x7fff_ffff,
                height <= 0x7fff_ffff,
        ;
        let pixels: u64 = width as u64 * height as u64;
        assert(3 * width * height == 3 * (width * height)) by (nonlinear_arith);
        if pixels > (usize::MAX / 3) as u64 {
            assert(data@.len() < 3 * width * height);
            return None;
        }
        let expected: usize = 3 * (pixels as usize);
        if n < expected {
            assert(3 * width * height == 3 * (width * height)) by (nonlinear_arith);
            return None;
        }
        assert(3 * width * height == 3 * (width * height)) by (nonlinear_arith);
        Some(RgbRaster { width, height, data })
    }

    /// The number of columns.
    pub fn width(&self) -> (w: u32)
        ensures
            w == self.spec_width(),
            w <= i32::MAX,
    {
        proof {
            use_type_invariant(self);
        }
        self.width
    }

    /// The number of rows.
    pub fn height(&self) -> (h: u32)
        ensures
            h == self.spec_height(),
            h <= i32::MAX,
    {
        proof {
            use_type_invariant(self);
        }
        self.height
    }

    /// The colour at column `x`, row `y`.
    pub fn pixel(&self, x: u32, y: u32) -> (c: Rgb)
        requires
            x < self.spec_width(),
            y < self.spec_height(),
        ensures
            c == self.pixel_at(x as int, y as int),
    {
        proof {
            use_type_invariant(self);
            lemma_pixel_in_buffer(self.width as int, self.height as int, x as int, y as int);
        }
        let n: usize = self.data.len();
        assert(3 * (y * self.width + x) + 3 <= n);
        let i: usize = 3 * (y as usize * self.width as usize + x as usize);
        Rgb { r: self.data[i], g: self.data[i + 1], b: self.data[i + 2] }
    }
}

} // verus!
