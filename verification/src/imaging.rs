use vstd::prelude::*;

use base64::Engine;
use image::DynamicImage;

use crate::raster::{byte_offset, Rgb, RgbRaster};
use crate::text::joined_text;

verus! {

/// A decoded image of any pixel format, as the `image` crate holds it.
#[verifier::external_type_specification]
#[verifier::external_body]
pub struct ExDynamicImage(image::DynamicImage);

/// The character that stands for the 6-bit value `v` in the standard base64 alphabet
/// (RFC 4648): `A`-`Z`, `a`-`z`, `0`-`9`, `+`, `/`.
pub open spec fn base64_symbol(v: int) -> char {
    if v < 26 {
        (65 + v) as char
    } else if v < 52 {
        (97 + v - 26) as char
    } else if v < 62 {
        (48 + v - 52) as char
    } else if v == 62 {
        '+'
    } else {
        '/'
    }
}

/// The standard base64 encoding of `b` (RFC 4648, with `=` padding): each group of three
/// bytes becomes four symbols of six bits each, and a last group of one or two bytes is
/// padded to four characters.
pub open spec fn base64_standard(b: Seq<u8>) -> Seq<char>
    decreases b.len(),
{
    if b.len() == 0 {
        seq![]
    } else {
        let b0 = b[0] as int;
        let b1 = if b.len() > 1 { b[1] as int } else { 0 };
        let b2 = if b.len() > 2 { b[2] as int } else { 0 };
        if b.len() == 1 {
            seq![base64_symbol(b0 / 4), base64_symbol((b0 % 4) * 16), '=', '=']
        } else if b.len() == 2 {
            seq![
                base64_symbol(b0 / 4),
                base64_symbol((b0 % 4) * 16 + b1 / 16),
                base64_symbol((b1 % 16) * 4),
                '=',
            ]
        } else {
            seq![
                base64_symbol(b0 / 4),
                base64_symbol((b0 % 4) * 16 + b1 / 16),
                base64_symbol((b1 % 16) * 4 + b2 / 64),
                base64_symbol(b2 % 64),
            ] + base64_standard(b.subrange(3, b.len() as int))
        }
    }
}

/// The standard base64 encoding of `bytes`, with padding.
/// Trusted: `base64::engine::general_purpose::STANDARD.encode`, the engine with the standard
/// alphabet and padding, claimed to produce exactly [`base64_standard`]. It panics only when
/// the encoded length overflows `usize`, which no slice that fits in memory reaches.
#[verifier::external_body]
fn base64_encode(bytes: &[u8]) -> (s: String)
    ensures
        s@ == base64_standard(bytes@),
{
    base64::engine::general_purpose::STANDARD.encode(bytes)
}

/// The number of columns of an image, as `DynamicImage::width` gives it.
pub uninterp spec fn image_width_of(img: DynamicImage) -> u32;

/// The number of rows of an image, as `DynamicImage::height` gives it.
pub uninterp spec fn image_height_of(img: DynamicImage) -> u32;

/// The image's sample buffer as bytes, as `DynamicImage::as_bytes` gives it.
pub uninterp spec fn image_bytes_of(img: DynamicImage) -> Seq<u8>;

/// The bytes per pixel of the image's colour type, as `ColorType::bytes_per_pixel` gives it.
pub uninterp spec fn bytes_per_pixel_of(img: DynamicImage) -> u8;

/// The channels per pixel of the image's colour type, as `ColorType::channel_count` gives it.
pub uninterp spec fn channel_count_of(img: DynamicImage) -> u8;

/// The bytes of the image converted to 8-bit RGB, as `DynamicImage::to_rgb8` and
/// `ImageBuffer::into_raw` give them.
pub uninterp spec fn rgb8_bytes_of(img: DynamicImage) -> Seq<u8>;

/// The bytes that `DynamicImage::write_to` writes when encoding the image as PNG.
pub uninterp spec fn png_written_of(img: DynamicImage) -> Seq<u8>;

/// The message of the error that PNG encoding of the image fails with, or `None` when it
/// succeeds.
pub uninterp spec fn png_error_of(img: DynamicImage) -> Option<Seq<char>>;

/// Whether the image's buffer holds exactly the bytes its pixels need: the PNG encoder
/// asserts this and panics otherwise. Decoded images always meet it; an image built by
/// `ImageBuffer::from_raw` from a longer buffer does not.
pub open spec fn buffer_exact(img: DynamicImage) -> bool {
    image_bytes_of(img).len() == image_width_of(img) * image_height_of(img) * bytes_per_pixel_of(
        img,
    )
}

/// The number of columns of a decoded image.
/// Trusted: `DynamicImage::width`, named [`image_width_of`].
#[verifier::external_body]
fn image_width(img: &DynamicImage) -> (w: u32)
    ensures
        w == image_width_of(*img),
{
    img.width()
}

/// The number of rows of a decoded image.
/// Trusted: `DynamicImage::height`, named [`image_height_of`].
#[verifier::external_body]
fn image_height(img: &DynamicImage) -> (h: u32)
    ensures
        h == image_height_of(*img),
{
    img.height()
}

/// The length of the image's sample buffer, in bytes.
/// Trusted: `DynamicImage::as_bytes`, whose length is that of [`image_bytes_of`].
#[verifier::external_body]
fn image_byte_count(img: &DynamicImage) -> (n: usize)
    ensures
        n == image_bytes_of(*img).len(),
{
    img.as_bytes().len()
}

/// The bytes per pixel of the image's colour type.
/// Trusted: `DynamicImage::color` then `ColorType::bytes_per_pixel`, named
/// [`bytes_per_pixel_of`].
#[verifier::external_body]
fn image_bytes_per_pixel(img: &DynamicImage) -> (n: u8)
    ensures
        n == bytes_per_pixel_of(*img),
{
    img.color().bytes_per_pixel()
}

/// The image converted to 8-bit RGB: its width, its height and its row-major bytes.
/// Trusted: `DynamicImage::to_rgb8` with the `ImageBuffer` accessors. The conversion keeps
/// the image's width and height (`ImageRgb8` is cloned; other variants are converted into a
/// buffer built with the same width and height), and every `ImageBuffer` holds at least three
/// bytes per pixel (checked by `ImageBuffer::from_raw`). The bytes are named
/// [`rgb8_bytes_of`].
#[verifier::external_body]
fn rgb_bytes(img: &DynamicImage) -> (r: (u32, u32, Vec<u8>))
    ensures
        r.0 == image_width_of(*img),
        r.1 == image_height_of(*img),
        r.2@ == rgb8_bytes_of(*img),
        r.2@.len() >= 3 * r.0 * r.1,
{
    let rgb = img.to_rgb8();
    (rgb.width(), rgb.height(), rgb.into_raw())
}

/// An 8-bit RGBA image from its row-major bytes.
/// Trusted: `ImageBuffer::from_raw` wrapped in `DynamicImage::ImageRgba8`; `from_raw` accepts
/// any buffer of at least four bytes per pixel, which `requires` guarantees, and keeps the
/// buffer, the width and the height as given. `Rgba8` has four channels of one byte each.
#[verifier::external_body]
fn rgba_image(width: u32, height: u32, bytes: Vec<u8>) -> (img: DynamicImage)
    requires
        bytes@.len() == 4 * width * height,
    ensures
        image_width_of(img) == width,
        image_height_of(img) == height,
        image_bytes_of(img) == bytes@,
        bytes_per_pixel_of(img) == 4,
        channel_count_of(img) == 4,
{
    DynamicImage::ImageRgba8(image::RgbaImage::from_raw(width, height, bytes).unwrap())
}

/// Writes the image as PNG into an in-memory buffer: the bytes written, and the encoder's
/// error message if it failed.
/// Trusted: `DynamicImage::write_to` with `ImageFormat::Png` on a `Cursor<Vec<u8>>`, and the
/// error's `Display`. The PNG encoder does not convert the image and asserts that its buffer
/// holds exactly the bytes its pixels need, which `requires` guarantees. Encoding into memory
/// depends on the image alone; its bytes and error are named [`png_written_of`] and
/// [`png_error_of`].
#[verifier::external_body]
fn write_png(img: &DynamicImage) -> (r: (Vec<u8>, Result<(), String>))
    requires
        buffer_exact(*img),
    ensures
        r.0@ == png_written_of(*img),
        r.1 is Ok <==> png_error_of(*img) is None,
        r.1 matches Err(m) ==> png_error_of(*img) == Some(m@),
{
    let mut cursor = std::io::Cursor::new(Vec::new());
    let result = match img.write_to(&mut cursor, image::ImageFormat::Png) {
        Ok(()) => Ok(()),
        Err(e) => Err(e.to_string()),
    };
    (cursor.into_inner(), result)
}

/// Whether the image's buffer holds exactly the bytes its pixels need.
pub fn image_buffer_is_exact(img: &DynamicImage) -> (b: bool)
    ensures
        b == buffer_exact(*img),
{
    let width = image_width(img);
    let height = image_height(img);
    let bpp = image_bytes_per_pixel(img);
    let n = image_byte_count(img);
    assert(width * height * bpp <= 0xffff_ffff * 0xffff_ffff * 0xff) by (nonlinear_arith)
        requires
            width <= 0xffff_ffff,
            height <= 0xffff_ffff,
            bpp <= 0xff,
    ;
    assert(width * height <= 0xffff_ffff * 0xffff_ffff) by (nonlinear_arith)
        requires
            width <= 0xffff_ffff,
            height <= 0xffff_ffff,
    ;
    n as u128 == width as u128 * height as u128 * bpp as u128
}

/// The prefix of a data URL that carries a base64-encoded PNG.
pub open spec fn png_data_url_prefix() -> Seq<char> {
    "data:image/png;base64,"@
}

/// The data URL that carries the PNG bytes `png`.
pub open spec fn png_data_url_text(png: Seq<u8>) -> Seq<char> {
    png_data_url_prefix() + base64_standard(png)
}

/// The data URL that carries the PNG bytes `png`: `data:image/png;base64,` followed by their
/// standard base64 encoding.
pub fn png_data_url(png: &[u8]) -> (url: String)
    ensures
        url@ == png_data_url_text(png@),
{
    let encoded = base64_encode(png);
    joined_text("data:image/png;base64,", encoded.as_str())
}

/// What loading an image gives, once the PNG encoder has run: the data URL of the bytes it
/// wrote, with the image's size, when it succeeded; its error message when it failed.
pub fn data_url_from_png_outcome(
    png: &[u8],
    outcome: Result<(), String>,
    size: (u32, u32),
) -> (r: Result<(String, (u32, u32)), String>)
    ensures
        outcome is Ok ==> (r matches Ok((url, s)) && url@ == png_data_url_text(png@) && s == size),
        forall|m: String| outcome == Err::<(), String>(m) ==> (r matches Err(e) && e@ == m@),
{
    match outcome {
        Ok(()) => Ok((png_data_url(png), size)),
        Err(m) => Err(m),
    }
}

/// The data URL of an image, re-encoded as PNG, with its width and height; the encoder's
/// error message when it fails. The image's buffer must hold exactly the bytes its pixels
/// need, as every decoded image's does.
pub fn image_data_url(img: &DynamicImage) -> (r: Result<(String, (u32, u32)), String>)
    requires
        buffer_exact(*img),
    ensures
        r is Ok <==> png_error_of(*img) is None,
        r matches Ok((url, size)) ==> url@ == png_data_url_text(png_written_of(*img)) && size == (
            image_width_of(*img),
            image_height_of(*img),
        ),
        r matches Err(e) ==> png_error_of(*img) == Some(e@),
{
    let width = image_width(img);
    let height = image_height(img);
    let (png, outcome) = write_png(img);
    data_url_from_png_outcome(png.as_slice(), outcome, (width, height))
}

/// [`image_data_url`] for any image: `None` when the image's buffer does not hold exactly
/// the bytes its pixels need (an image built from a longer buffer), where the PNG encoder
/// would panic.
pub fn checked_image_data_url(img: &DynamicImage) -> (r: Option<Result<(String, (u32, u32)), String>>)
    ensures
        r is None <==> !buffer_exact(*img),
        r matches Some(res) ==> {
            &&& res is Ok <==> png_error_of(*img) is None
            &&& res matches Ok((url, size)) ==> url@ == png_data_url_text(png_written_of(*img))
                && size == (image_width_of(*img), image_height_of(*img))
            &&& res matches Err(e) ==> png_error_of(*img) == Some(e@)
        },
{
    if image_buffer_is_exact(img) {
        Some(image_data_url(img))
    } else {
        None
    }
}

/// The image as the curve tracer reads it, converted to 8-bit RGB; `None` when there is no
/// image, or a side of it does not fit in an `i32`.
pub fn raster_of(img: &Option<DynamicImage>) -> (r: Option<RgbRaster>)
    ensures
        img is None ==> r is None,
        forall|i: DynamicImage|
            *img == Some(i) ==> (r is Some <==> (image_width_of(i) <= i32::MAX && image_height_of(i)
                <= i32::MAX)),
        forall|i: DynamicImage|
            *img == Some(i) && r is Some ==> {
                let raster = r->0;
                &&& raster.spec_width() == image_width_of(i)
                &&& raster.spec_height() == image_height_of(i)
                &&& forall|x: int, y: int|
                    0 <= x < raster.spec_width() && 0 <= y < raster.spec_height()
                        ==> #[trigger] raster.pixel_at(x, y) == Rgb {
                        r: rgb8_bytes_of(i)[byte_offset(raster.spec_width(), x, y)],
                        g: rgb8_bytes_of(i)[byte_offset(raster.spec_width(), x, y) + 1],
                        b: rgb8_bytes_of(i)[byte_offset(raster.spec_width(), x, y) + 2],
                    }
            },
{
    match img {
        Some(i) => {
            let (width, height, bytes) = rgb_bytes(i);
            RgbRaster::from_rgb_bytes(width, height, bytes)
        },
        None => None,
    }
}

/// The image built from row-major RGBA bytes, with the data URL of its PNG encoding.
pub fn rgba_image_with_url(width: u32, height: u32, bytes: Vec<u8>) -> (r: (DynamicImage, String))
    requires
        bytes@.len() == 4 * width * height,
    ensures
        image_width_of(r.0) == width,
        image_height_of(r.0) == height,
        image_bytes_of(r.0) == bytes@,
        bytes_per_pixel_of(r.0) == 4,
        channel_count_of(r.0) == 4,
        r.1@ == png_data_url_text(png_written_of(r.0)),
{
    let ghost b = bytes@;
    let img = rgba_image(width, height, bytes);
    assert(buffer_exact(img)) by {
        assert(4 * width * height == width * height * 4) by (nonlinear_arith);
    }
    let (png, _outcome) = write_png(&img);
    let url = png_data_url(png.as_slice());
    (img, url)
}

} // verus!
