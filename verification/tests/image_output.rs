use base64::Engine;
use r3data::demo::{generate_demo_graph, render_demo_rgba, DEMO_CURVE_COLUMNS};
use r3data::imaging::{
    checked_image_data_url, data_url_from_png_outcome, image_buffer_is_exact, image_data_url,
    png_data_url, raster_of,
};

#[test]
fn base64_data_url_of_whole_groups() {
    assert_eq!(png_data_url(b"Man"), "data:image/png;base64,TWFu");
    assert_eq!(png_data_url(b""), "data:image/png;base64,");
}

#[test]
fn base64_data_url_pads_partial_groups() {
    assert_eq!(png_data_url(b"Ma"), "data:image/png;base64,TWE=");
    assert_eq!(png_data_url(b"M"), "data:image/png;base64,TQ==");
    assert_eq!(png_data_url(&[0xfb, 0xff, 0xbf, 0x00]), "data:image/png;base64,+/+/AA==");
}

#[test]
fn data_url_of_an_image_carries_a_png() {
    let img = image::DynamicImage::ImageRgb8(image::RgbImage::from_pixel(
        3,
        2,
        image::Rgb([10, 20, 30]),
    ));
    let (url, size) = image_data_url(&img).unwrap();
    assert_eq!(size, (3, 2));
    let prefix = "data:image/png;base64,";
    assert!(url.starts_with(prefix));
    let png = base64::engine::general_purpose::STANDARD.decode(&url[prefix.len()..]).unwrap();
    let back = image::load_from_memory(&png).unwrap();
    assert_eq!(back.to_rgb8().get_pixel(2, 1).0, [10, 20, 30]);
}

#[test]
fn raster_of_an_image_reads_its_pixels() {
    let mut buf = image::RgbImage::from_pixel(4, 3, image::Rgb([1, 2, 3]));
    buf.put_pixel(3, 2, image::Rgb([200, 100, 50]));
    let raster = raster_of(&Some(image::DynamicImage::ImageRgb8(buf))).unwrap();
    assert_eq!(raster.width(), 4);
    assert_eq!(raster.height(), 3);
    let p = raster.pixel(3, 2);
    assert_eq!((p.r, p.g, p.b), (200, 100, 50));
    assert!(raster_of(&None).is_none());
}

/// The curve rows of the sample graph: a sine wave around row 300.
fn sine_rows() -> Vec<i32> {
    (100..500)
        .map(|x| {
            let x_val = (x - 100) as f64 / 40.0;
            let y_val = (x_val.sin() + 1.0) * 100.0;
            400 - y_val as i32
        })
        .collect()
}

fn rgba(bytes: &[u8], x: usize, y: usize) -> [u8; 4] {
    let i = 4 * (y * 600 + x);
    [bytes[i], bytes[i + 1], bytes[i + 2], bytes[i + 3]]
}

#[test]
fn demo_graph_layers() {
    let rows = sine_rows();
    assert_eq!(rows.len(), DEMO_CURVE_COLUMNS);
    let bytes = render_demo_rgba(&rows);
    assert_eq!(bytes.len(), 600 * 500 * 4);
    assert_eq!(rgba(&bytes, 0, 0), [250, 250, 245, 255]);
    assert_eq!(rgba(&bytes, 150, 60), [230, 230, 225, 255]);
    assert_eq!(rgba(&bytes, 60, 400), [80, 80, 80, 255]);
    assert_eq!(rgba(&bytes, 200, 404), [40, 40, 40, 255]);
    assert_eq!(rgba(&bytes, 100, 300), [41, 128, 185, 255]);
    assert_eq!(rgba(&bytes, 98, 301), [41, 128, 185, 255]);
    assert_eq!(rgba(&bytes, 97, 301), [250, 250, 245, 255]);
    assert_eq!(rows[0], 300);
}

#[test]
fn demo_graph_image_and_url() {
    let (img, url, size) = generate_demo_graph(&sine_rows());
    assert_eq!(size, (600, 500));
    assert_eq!((img.width(), img.height()), (600, 500));
    assert!(url.starts_with("data:image/png;base64,iVBORw0KGgo"));
    assert_eq!(img.to_rgba8().get_pixel(100, 300).0, [41, 128, 185, 255]);
}

#[test]
fn png_outcome_decides_the_load_result() {
    assert_eq!(
        data_url_from_png_outcome(b"Man", Ok(()), (4, 5)),
        Ok(("data:image/png;base64,TWFu".to_string(), (4, 5)))
    );
    assert_eq!(
        data_url_from_png_outcome(b"Man", Err("encoder failed".to_string()), (4, 5)),
        Err("encoder failed".to_string())
    );
}

#[test]
fn oversized_buffers_are_refused_before_encoding() {
    let long = image::DynamicImage::ImageRgba8(image::RgbaImage::from_raw(1, 1, vec![0u8; 8]).unwrap());
    assert!(!image_buffer_is_exact(&long));
    assert!(checked_image_data_url(&long).is_none());
    let exact = image::DynamicImage::ImageRgba8(image::RgbaImage::from_raw(1, 1, vec![7u8; 4]).unwrap());
    assert!(image_buffer_is_exact(&exact));
    let (url, size) = checked_image_data_url(&exact).unwrap().unwrap();
    assert_eq!(size, (1, 1));
    assert!(url.starts_with("data:image/png;base64,"));
}

#[test]
fn unsupported_colour_types_report_the_encoder_error() {
    let img = image::DynamicImage::ImageRgb32F(image::Rgb32FImage::new(2, 2));
    assert!(image_buffer_is_exact(&img));
    let err = image_data_url(&img).unwrap_err();
    assert!(!err.is_empty());
}

#[test]
fn demo_graph_url_decodes_to_the_image() {
    let (img, url, _) = generate_demo_graph(&sine_rows());
    let png = base64::engine::general_purpose::STANDARD.decode(&url[22..]).unwrap();
    let back = image::load_from_memory(&png).unwrap();
    assert_eq!(back.to_rgba8().as_raw(), img.to_rgba8().as_raw());
    let (img2, url2, _) = generate_demo_graph(&sine_rows());
    assert_eq!(url, url2);
    assert_eq!(img.to_rgba8().as_raw(), img2.to_rgba8().as_raw());
}
