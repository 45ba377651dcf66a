use vstd::prelude::*;

use image::DynamicImage;

use crate::imaging::{
    bytes_per_pixel_of, channel_count_of, image_bytes_of, image_height_of, image_width_of,
    png_data_url_text, png_written_of, rgba_image_with_url,
};

verus! {

/// Width of the sample graph, in pixels.
pub const DEMO_WIDTH: u32 = 600;

/// Height of the sample graph, in pixels.
pub const DEMO_HEIGHT: u32 = 500;

/// Number of columns on which the sample curve is drawn: columns 100 to 499.
pub const DEMO_CURVE_COLUMNS: usize = 400;

/// An RGBA colour.
pub type Rgba = (u8, u8, u8, u8);

/// Paper colour of the sample graph.
pub open spec fn background_color() -> Rgba {
    (250, 250, 245, 255)
}

/// Colour of the grid lines.
pub open spec fn grid_color() -> Rgba {
    (230, 230, 225, 255)
}

/// Colour of the axes.
pub open spec fn axis_color() -> Rgba {
    (80, 80, 80, 255)
}

/// Colour of the tick marks.
pub open spec fn tick_color() -> Rgba {
    (40, 40, 40, 255)
}

/// Colour of the curve.
pub open spec fn curve_color() -> Rgba {
    (41, 128, 185, 255)
}

/// Grid lines every 50 pixels: vertical ones at x = 50..550 over rows 50..449, horizontal
/// ones at y = 50..400 over columns 50..549.
pub open spec fn on_grid(x: int, y: int) -> bool {
    ||| (x % 50 == 0 && 50 <= x < 600 && 50 <= y < 450)
    ||| (y % 50 == 0 && 50 <= y < 450 && 50 <= x < 550)
}

/// The axes, three pixels thick: the X axis on rows 399..401 over columns 50..549, the Y axis
/// on columns 99..101 over rows 50..449.
pub open spec fn on_axis(x: int, y: int) -> bool {
    ||| (50 <= x < 550 && 399 <= y <= 401)
    ||| (50 <= y < 450 && 99 <= x <= 101)
}

/// Tick marks, eleven pixels long: on the X axis at x = 100..500 every 100, on the Y axis at
/// y = 100..400 every 100.
pub open spec fn on_tick(x: int, y: int) -> bool {
    ||| (x % 100 == 0 && 100 <= x <= 500 && 395 <= y <= 405)
    ||| (y % 100 == 0 && 100 <= y <= 400 && 95 <= x <= 105)
}

/// The 5x5 square of the curve drawn around column `c` (from 100 to 499), at the row that
/// `rows[c - 100]` gives, covers pixel `(x, y)`; columns whose row falls outside rows
/// 50..449 are not drawn.
pub open spec fn curve_covers(rows: Seq<i32>, c: int, x: int, y: int) -> bool {
    &&& 100 <= c < 500
    &&& 50 <= rows[c - 100] < 450
    &&& c - 2 <= x <= c + 2
    &&& rows[c - 100] - 2 <= y <= rows[c - 100] + 2
}

/// Whether the curve covers pixel `(x, y)`.
pub open spec fn on_curve(rows: Seq<i32>, x: int, y: int) -> bool {
    exists|c: int| curve_covers(rows, c, x, y)
}

/// The colour of pixel `(x, y)` of the sample graph: the curve over the ticks, over the axes,
/// over the grid, over the paper.
pub open spec fn demo_pixel(rows: Seq<i32>, x: int, y: int) -> Rgba {
    if on_curve(rows, x, y) {
        curve_color()
    } else if on_tick(x, y) {
        tick_color()
    } else if on_axis(x, y) {
        axis_color()
    } else if on_grid(x, y) {
        grid_color()
    } else {
        background_color()
    }
}

/// The four bytes of pixel `(x, y)` in a row-major RGBA buffer of the given width.
pub open spec fn rgba_at(bytes: Seq<u8>, width: int, x: int, y: int) -> Rgba {
    let i = 4 * (y * width + x);
    (bytes[i], bytes[i + 1], bytes[i + 2], bytes[i + 3])
}

/// Pixel `(x, y)` of a row-major RGBA buffer `width` pixels wide is the four bytes starting
/// at `4 * (y * width + x)`: red, green, blue, alpha.
pub proof fn lemma_rgba_layout(bytes: Seq<u8>, width: int, x: int, y: int)
    ensures
        rgba_at(bytes, width, x, y).0 == bytes[4 * y * width + 4 * x],
        rgba_at(bytes, width, x, y).1 == bytes[4 * y * width + 4 * x + 1],
        rgba_at(bytes, width, x, y).2 == bytes[4 * y * width + 4 * x + 2],
        rgba_at(bytes, width, x, y).3 == bytes[4 * y * width + 4 * x + 3],
{
    assert(4 * (y * width + x) == 4 * y * width + 4 * x) by (nonlinear_arith);
}

/// Whether the curve covers pixel `(x, y)`.
fn curve_at(rows: &Vec<i32>, x: u32, y: u32) -> (b: bool)
    requires
        rows@.len() == DEMO_CURVE_COLUMNS,
        x < DEMO_WIDTH,
        y < DEMO_HEIGHT,
    ensures
        b == on_curve(rows@, x as int, y as int),
{
    let lo: u32 = if x >= 102 {
        x - 2
    } else {
        100
    };
    let hi: u32 = if x + 2 <= 499 {
        x + 2
    } else {
        499
    };
    let mut c: u32 = lo;
    while c <= hi
        invariant
            rows@.len() == DEMO_CURVE_COLUMNS,
            x < DEMO_WIDTH,
            100 <= lo <= c,
            hi <= 499,
            lo == (if x >= 102 { x - 2 } else { 100 }),
            hi == (if x + 2 <= 499 { x + 2 } else { 499 }),
            forall|k: int| lo <= k < c ==> !curve_covers(rows@, k, x as int, y as int),
        decreases hi + 1 - c,
    {
        let r = rows[(c - 100) as usize];
        if 50 <= r && r < 450 && r as i64 - 2 <= y as i64 && y as i64 <= r as i64 + 2 {
            assert(curve_covers(rows@, c as int, x as int, y as int));
            return true;
        }
        c = c + 1;
    }
    assert forall|k: int| !curve_covers(rows@, k, x as int, y as int) by {
        if lo <= k <= hi {
        }
    }
    false
}

/// The colour of pixel `(x, y)` of the sample graph.
fn demo_pixel_color(rows: &Vec<i32>, x: u32, y: u32) -> (c: Rgba)
    requires
        rows@.len() == DEMO_CURVE_COLUMNS,
        x < DEMO_WIDTH,
        y < DEMO_HEIGHT,
    ensures
        c == demo_pixel(rows@, x as int, y as int),
{
    if curve_at(rows, x, y) {
        (41, 128, 185, 255)
    } else if (x % 100 == 0 && 100 <= x && x <= 500 && 395 <= y && y <= 405) || (y % 100 == 0
        && 100 <= y && y <= 400 && 95 <= x && x <= 105) {
        (40, 40, 40, 255)
    } else if (50 <= x && x < 550 && 399 <= y && y <= 401) || (50 <= y && y < 450 && 99 <= x
        && x <= 101) {
        (80, 80, 80, 255)
    } else if (x % 50 == 0 && 50 <= x && x < 600 && 50 <= y && y < 450) || (y % 50 == 0 && 50
        <= y && y < 450 && 50 <= x && x < 550) {
        (230, 230, 225, 255)
    } else {
        (250, 250, 245, 255)
    }
}

/// Whether no square of the curve covers pixel `(x, y)`: for each column `100 + k` whose row
/// `rows[k]` lies in rows 50..449, the pixel is not within two columns and two rows of it.
pub open spec fn clear_of_curve(rows: Seq<i32>, x: int, y: int) -> bool {
    forall|k: int|
        0 <= k < 400 && 50 <= #[trigger] rows[k] < 450 ==> !(k + 98 <= x <= k + 102 && rows[k] - 2
            <= y <= rows[k] + 2)
}

/// The picture of the sample graph, layer by layer: a pixel within two columns and two rows of
/// a drawn point of the curve is blue; elsewhere the tick marks (x = 100, 200, ..., 500 on rows
/// 395..405; y = 100, ..., 400 on columns 95..105) are dark; elsewhere the axes (rows
/// 399..401 over columns 50..549; columns 99..101 over rows 50..449) are grey; elsewhere the
/// grid lines (x = 50, 100, ..., 550 over rows 50..449; y = 50, 100, ..., 400 over columns
/// 50..549) are light grey; everything else is the paper colour.
pub proof fn lemma_demo_picture(rows: Seq<i32>, x: int, y: int)
    requires
        rows.len() == 400,
        0 <= x < 600,
        0 <= y < 500,
    ensures
        forall|k: int|
            0 <= k < 400 && 50 <= #[trigger] rows[k] < 450 && k + 98 <= x <= k + 102 && rows[k] - 2
                <= y <= rows[k] + 2 ==> demo_pixel(rows, x, y) == (41u8, 128u8, 185u8, 255u8),
        clear_of_curve(rows, x, y) && ((x % 100 == 0 && 100 <= x <= 500 && 395 <= y <= 405) || (y
            % 100 == 0 && 100 <= y <= 400 && 95 <= x <= 105)) ==> demo_pixel(rows, x, y) == (
            40u8,
            40u8,
            40u8,
            255u8,
        ),
        clear_of_curve(rows, x, y) && !((x % 100 == 0 && 100 <= x <= 500 && 395 <= y <= 405) || (y
            % 100 == 0 && 100 <= y <= 400 && 95 <= x <= 105)) && ((50 <= x < 550 && 399 <= y <= 401)
            || (50 <= y < 450 && 99 <= x <= 101)) ==> demo_pixel(rows, x, y) == (
            80u8,
            80u8,
            80u8,
            255u8,
        ),
        clear_of_curve(rows, x, y) && !((x % 100 == 0 && 100 <= x <= 500 && 395 <= y <= 405) || (y
            % 100 == 0 && 100 <= y <= 400 && 95 <= x <= 105)) && !((50 <= x < 550 && 399 <= y <= 401)
            || (50 <= y < 450 && 99 <= x <= 101)) && ((x % 50 == 0 && 50 <= x <= 550 && 50 <= y
            <= 449) || (y % 50 == 0 && 50 <= y <= 400 && 50 <= x <= 549)) ==> demo_pixel(rows, x, y)
            == (230u8, 230u8, 225u8, 255u8),
        clear_of_curve(rows, x, y) && !((x % 100 == 0 && 100 <= x <= 500 && 395 <= y <= 405) || (y
            % 100 == 0 && 100 <= y <= 400 && 95 <= x <= 105)) && !((50 <= x < 550 && 399 <= y <= 401)
            || (50 <= y < 450 && 99 <= x <= 101)) && !((x % 50 == 0 && 50 <= x <= 550 && 50 <= y
            <= 449) || (y % 50 == 0 && 50 <= y <= 400 && 50 <= x <= 549)) ==> demo_pixel(rows, x, y)
            == (250u8, 250u8, 245u8, 255u8),
{
    assert forall|k: int|
        0 <= k < 400 && 50 <= #[trigger] rows[k] < 450 && k + 98 <= x <= k + 102 && rows[k] - 2
            <= y <= rows[k] + 2 implies demo_pixel(rows, x, y) == (41u8, 128u8, 185u8, 255u8) by {
        assert(curve_covers(rows, k + 100, x, y));
    }
    if clear_of_curve(rows, x, y) {
        assert forall|c: int| !curve_covers(rows, c, x, y) by {
            if curve_covers(rows, c, x, y) {
                let k = c - 100;
                assert(50 <= rows[k] < 450);
            }
        }
        assert(!on_curve(rows, x, y));
    }
}

/// The pixels of the sample graph, row-major RGBA: a grid, axes with tick marks, and the
/// curve whose row in each of the columns 100 to 499 is `rows[column - 100]`.
pub fn render_demo_rgba(rows: &Vec<i32>) -> (bytes: Vec<u8>)
    requires
        rows@.len() == DEMO_CURVE_COLUMNS,
    ensures
        bytes@.len() == 4 * DEMO_WIDTH * DEMO_HEIGHT,
        forall|x: int, y: int|
            0 <= x < DEMO_WIDTH && 0 <= y < DEMO_HEIGHT ==> #[trigger] rgba_at(
                bytes@,
                DEMO_WIDTH as int,
                x,
                y,
            ) == demo_pixel(rows@, x, y),
        forall|x: int, y: int|
            0 <= x < DEMO_WIDTH && 0 <= y < DEMO_HEIGHT && y % 50 == 0 && 50 <= y <= 400 && 50 <= x
                <= 549 && clear_of_curve(rows@, x, y) && !((x % 100 == 0 && 100 <= x <= 500 && 395
                <= y <= 405) || (y % 100 == 0 && 100 <= y <= 400 && 95 <= x <= 105)) && !((50 <= x
                < 550 && 399 <= y <= 401) || (50 <= y < 450 && 99 <= x <= 101)) ==> #[trigger] rgba_at(
                bytes@,
                DEMO_WIDTH as int,
                x,
                y,
            ) == (230u8, 230u8, 225u8, 255u8),
{
    let mut bytes: Vec<u8> = Vec::new();
    let mut y: u32 = 0;
    while y < DEMO_HEIGHT
        invariant
            rows@.len() == DEMO_CURVE_COLUMNS,
            y <= DEMO_HEIGHT,
            bytes@.len() == 4 * (y * 600),
            forall|xx: int, yy: int|
                0 <= xx < 600 && 0 <= yy < y ==> #[trigger] rgba_at(bytes@, 600, xx, yy)
                    == demo_pixel(rows@, xx, yy),
        decreases DEMO_HEIGHT - y,
    {
        let mut x: u32 = 0;
        while x < DEMO_WIDTH
            invariant
                rows@.len() == DEMO_CURVE_COLUMNS,
                y < DEMO_HEIGHT,
                x <= DEMO_WIDTH,
                bytes@.len() == 4 * (y * 600 + x),
                forall|xx: int, yy: int|
                    0 <= xx < 600 && 0 <= yy < y ==> #[trigger] rgba_at(bytes@, 600, xx, yy)
                        == demo_pixel(rows@, xx, yy),
                forall|xx: int|
                    0 <= xx < x ==> #[trigger] rgba_at(bytes@, 600, xx, y as int) == demo_pixel(
                        rows@,
                        xx,
                        y as int,
                    ),
            decreases DEMO_WIDTH - x,
        {
            let c = demo_pixel_color(rows, x, y);
            let ghost before = bytes@;
            bytes.push(c.0);
            bytes.push(c.1);
            bytes.push(c.2);
            bytes.push(c.3);
            assert forall|xx: int, yy: int|
                0 <= xx < 600 && 0 <= yy < y implies #[trigger] rgba_at(bytes@, 600, xx, yy)
                == demo_pixel(rows@, xx, yy) by {
                assert(rgba_at(bytes@, 600, xx, yy) == rgba_at(before, 600, xx, yy));
            }
            assert forall|xx: int| 0 <= xx < x + 1 implies #[trigger] rgba_at(
                bytes@,
                600,
                xx,
                y as int,
            ) == demo_pixel(rows@, xx, y as int) by {
                if xx < x {
                    assert(rgba_at(bytes@, 600, xx, y as int) == rgba_at(before, 600, xx, y as int));
                }
            }
            x = x + 1;
        }
        assert forall|xx: int, yy: int|
            0 <= xx < 600 && 0 <= yy < y + 1 implies #[trigger] rgba_at(bytes@, 600, xx, yy)
            == demo_pixel(rows@, xx, yy) by {
            if yy == y {
                assert(rgba_at(bytes@, 600, xx, y as int) == demo_pixel(rows@, xx, y as int));
            }
        }
        y = y + 1;
    }
    assert forall|x: int, y: int|
        0 <= x < DEMO_WIDTH && 0 <= y < DEMO_HEIGHT && y % 50 == 0 && 50 <= y <= 400 && 50 <= x
            <= 549 && clear_of_curve(rows@, x, y) && !((x % 100 == 0 && 100 <= x <= 500 && 395 <= y
            <= 405) || (y % 100 == 0 && 100 <= y <= 400 && 95 <= x <= 105)) && !((50 <= x < 550
            && 399 <= y <= 401) || (50 <= y < 450 && 99 <= x <= 101)) implies #[trigger] rgba_at(
        bytes@,
        DEMO_WIDTH as int,
        x,
        y,
    ) == (230u8, 230u8, 225u8, 255u8) by {
        lemma_demo_picture(rows@, x, y);
    }
    bytes
}

/// The sample graph shown when no project is loaded: the image, the data URL of its PNG
/// encoding, and its size. `rows` gives the curve's row in each of the columns 100 to 499.
pub fn generate_demo_graph(rows: &Vec<i32>) -> (r: (DynamicImage, String, (u32, u32)))
    requires
        rows@.len() == DEMO_CURVE_COLUMNS,
    ensures
        r.2 == (DEMO_WIDTH, DEMO_HEIGHT),
        image_width_of(r.0) == DEMO_WIDTH,
        image_height_of(r.0) == DEMO_HEIGHT,
        bytes_per_pixel_of(r.0) == 4,
        channel_count_of(r.0) == 4,
        image_bytes_of(r.0).len() == 4 * DEMO_WIDTH * DEMO_HEIGHT,
        forall|x: int, y: int|
            0 <= x < DEMO_WIDTH && 0 <= y < DEMO_HEIGHT ==> #[trigger] rgba_at(
                image_bytes_of(r.0),
                DEMO_WIDTH as int,
                x,
                y,
            ) == demo_pixel(rows@, x, y),
        r.1@ == png_data_url_text(png_written_of(r.0)),
{
    let bytes = render_demo_rgba(rows);
    let (img, url) = rgba_image_with_url(DEMO_WIDTH, DEMO_HEIGHT, bytes);
    (img, url, (DEMO_WIDTH, DEMO_HEIGHT))
}

} // verus!
