use r3data::raster::{color_distance2, Rgb, RgbRaster};
use r3data::trace::{
    best_row, matching_bottom, matching_rows_around, matching_top, scan_column, search_range,
    search_window, trace_from_point, trace_rightward, ColumnScan, TracePoint,
};

const WHITE: [u8; 3] = [255, 255, 255];
const BLACK: [u8; 3] = [0, 0, 0];

/// A `width` x `height` white image with black pixels where `black(x, y)` holds.
fn image(width: u32, height: u32, black: impl Fn(u32, u32) -> bool) -> RgbRaster {
    let mut data = Vec::new();
    for y in 0..height {
        for x in 0..width {
            data.extend_from_slice(if black(x, y) { &BLACK } else { &WHITE });
        }
    }
    RgbRaster::from_rgb_bytes(width, height, data).unwrap()
}

fn black() -> Rgb {
    Rgb { r: 0, g: 0, b: 0 }
}

#[test]
fn raster_rejects_short_buffers() {
    assert!(RgbRaster::from_rgb_bytes(2, 2, vec![0; 11]).is_none());
    assert!(RgbRaster::from_rgb_bytes(2, 2, vec![0; 12]).is_some());
    assert!(RgbRaster::from_rgb_bytes(2, 2, vec![0; 13]).is_some());
    assert!(RgbRaster::from_rgb_bytes(0x8000_0000, 0, vec![]).is_none());
}

#[test]
fn raster_reads_row_major_pixels() {
    let img = RgbRaster::from_rgb_bytes(2, 2, vec![1, 2, 3, 4, 5, 6, 7, 8, 9, 10, 11, 12]).unwrap();
    assert_eq!(img.width(), 2);
    assert_eq!(img.height(), 2);
    assert_eq!(img.pixel(1, 0), Rgb { r: 4, g: 5, b: 6 });
    assert_eq!(img.pixel(0, 1), Rgb { r: 7, g: 8, b: 9 });
}

#[test]
fn squared_colour_distance() {
    assert_eq!(color_distance2(black(), Rgb { r: 255, g: 255, b: 255 }), 195075);
    assert_eq!(color_distance2(Rgb { r: 10, g: 20, b: 30 }, Rgb { r: 13, g: 16, b: 30 }), 25);
}

#[test]
fn search_range_is_at_least_sixty_rows() {
    assert_eq!(search_range(1), 60);
    assert_eq!(search_range(-5), 60);
    assert_eq!(search_range(75), 75);
}

#[test]
fn search_window_is_clamped_to_the_image() {
    assert_eq!(search_window(4, 60, 10), (0, 9));
    assert_eq!(search_window(50, 3, 100), (47, 53));
}

#[test]
fn column_scan_finds_first_best_row_and_its_run() {
    let img = image(20, 10, |_, y| y == 4 || y == 5);
    let scan = scan_column(&img, 5, 0, 60, black(), 0);
    assert_eq!(scan, ColumnScan { best: 4, best_dist2: 0, top: 4, bottom: 5 });
    assert_eq!(best_row(&img, 5, 6, 9, black()), (6, 195075));
    assert_eq!(matching_top(&img, 5, 5, 0, black(), 0), 4);
    assert_eq!(matching_bottom(&img, 5, 4, 9, black(), 0), 5);
    assert_eq!(matching_bottom(&img, 5, 4, 4, black(), 0), 4);
}

#[test]
fn column_scan_expands_even_without_a_match() {
    let img = image(20, 10, |_, y| y == 4);
    let scan = scan_column(&img, 5, 8, 1, black(), 0);
    assert_eq!(scan, ColumnScan { best: 7, best_dist2: 195075, top: 7, bottom: 7 });
}

#[test]
fn traces_a_horizontal_line_to_the_right_edge() {
    let img = image(20, 10, |_, y| y == 4 || y == 5);
    let pts = trace_rightward(&img, 0, 4, 5, 60, 0);
    assert_eq!(
        pts,
        vec![
            TracePoint { x: 5, y_sum: 9 },
            TracePoint { x: 10, y_sum: 9 },
            TracePoint { x: 15, y_sum: 9 },
        ]
    );
}

#[test]
fn trace_follows_a_descending_line() {
    let img = image(10, 10, |x, y| y == x / 2 + 2);
    let pts = trace_rightward(&img, 0, 2, 2, 1, 0);
    assert_eq!(
        pts,
        vec![
            TracePoint { x: 2, y_sum: 6 },
            TracePoint { x: 4, y_sum: 8 },
            TracePoint { x: 6, y_sum: 10 },
            TracePoint { x: 8, y_sum: 12 },
        ]
    );
}

#[test]
fn trace_stops_at_a_column_without_the_colour() {
    let img = image(20, 10, |x, y| (y == 4 || y == 5) && x != 10);
    let pts = trace_rightward(&img, 0, 4, 5, 60, 0);
    assert_eq!(pts, vec![TracePoint { x: 5, y_sum: 9 }]);
}

#[test]
fn trace_with_no_tolerance_finds_nothing() {
    let img = image(20, 10, |_, y| y == 4);
    assert!(trace_rightward(&img, 0, 4, 5, 60, -1).is_empty());
}

#[test]
fn trace_from_point_outside_the_image_finds_nothing() {
    let img = image(20, 10, |_, y| y == 4);
    assert!(trace_from_point(&img, -1, 4, 5, 1, 0).is_empty());
    assert!(trace_from_point(&img, 20, 4, 5, 1, 0).is_empty());
    assert!(trace_from_point(&img, 0, 10, 5, 1, 0).is_empty());
    assert_eq!(trace_from_point(&img, 0, 4, 5, 1, 0).len(), 3);
}

#[test]
fn matching_rows_around_counts_and_sums() {
    let img = image(20, 10, |_, y| y == 4 || y == 5);
    assert_eq!(matching_rows_around(&img, 5, 4, 2, black(), 0), (2, 9));
    assert_eq!(matching_rows_around(&img, 5, 0, 1, black(), 0), (0, 0));
    assert_eq!(matching_rows_around(&img, 5, 9, 3, black(), 195075), (4, 6 + 7 + 8 + 9));
    assert_eq!(matching_rows_around(&img, 5, 4, -1, black(), 0), (0, 0));
}
