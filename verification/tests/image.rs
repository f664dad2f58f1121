use pix_engine::pixel::premultiply;
use pix_engine::color::Color;
use pix_engine::error::PixError;
use pix_engine::image::{Image, PixelFormat, PngColorType};
use pix_engine::ops::{clamp_dimensions, clamp_size};

#[test]
fn image_bytes_must_match_the_dimensions() {
    let img = Image::from_bytes(2, 1, &[1, 2, 3, 4, 5, 6], PixelFormat::Rgb).unwrap();
    assert_eq!(img.dimensions(), (2, 1));
    assert_eq!(img.pitch(), 6);
    assert_eq!(img.get_pixel(1, 0), Color::rgb(4, 5, 6));
    assert_eq!(
        Image::from_bytes(2, 2, &[1, 2, 3], PixelFormat::Rgba).unwrap_err(),
        PixError::InvalidImage { width: 2, height: 2, size: 3, format: PixelFormat::Rgba }
    );
}

#[test]
fn a_pixel_set_is_the_pixel_read() {
    let mut img = Image::with_rgba(3, 2);
    img.set_pixel(2, 1, Color::rgba(9, 8, 7, 6));
    assert_eq!(img.get_pixel(2, 1), Color::rgba(9, 8, 7, 6));
    assert_eq!(img.get_pixel(0, 0), Color::rgba(0, 0, 0, 0));
    let pixels = img.clone().into_pixels();
    assert_eq!(pixels.len(), 6);
    assert_eq!(pixels[5], Color::rgba(9, 8, 7, 6));
    let again = Image::from_pixels(3, 2, &pixels, PixelFormat::Rgba).unwrap();
    assert_eq!(again.as_bytes(), img.as_bytes());
}

#[test]
fn a_png_round_trip_keeps_the_pixels() {
    let img = Image::from_bytes(2, 2, &[255, 0, 0, 0, 255, 0, 0, 0, 255, 9, 9, 9], PixelFormat::Rgb).unwrap();
    let bytes = img.encode_png().unwrap();
    let back = Image::decode_png(&bytes).unwrap();
    assert_eq!(back.dimensions(), (2, 2));
    assert_eq!(back.format(), PixelFormat::Rgb);
    assert_eq!(back.as_bytes(), img.as_bytes());
    assert_eq!(Image::decode_png(&[1, 2, 3]).unwrap_err(), PixError::PngDecoding);
}

#[test]
fn only_rgb_color_types_convert_to_a_format() {
    assert_eq!(PixelFormat::try_from(PngColorType::Rgb), Ok(PixelFormat::Rgb));
    assert_eq!(PixelFormat::try_from(PngColorType::Rgba), Ok(PixelFormat::Rgba));
    assert!(PixelFormat::try_from(PngColorType::Indexed).is_err());
    assert_eq!(PixelFormat::Rgb.channels(), 3);
    assert_eq!(PixelFormat::default(), PixelFormat::Rgba);
}

#[test]
fn sizes_clamp_to_half_of_i32_max() {
    assert_eq!(clamp_size(10), 10);
    assert_eq!(clamp_size(u32::MAX), i32::MAX / 2);
    assert_eq!(clamp_dimensions(5, u32::MAX), (5, i32::MAX / 2));
}

#[test]
fn a_default_image_is_empty_rgba() {
    let img = Image::default();
    assert_eq!(img.dimensions(), (0, 0));
    assert_eq!(img.format(), PixelFormat::Rgba);
    assert!(img.as_bytes().is_empty());
}

#[test]
fn new_and_with_rgba_make_the_same_image() {
    let a = Image::new(3, 2);
    let b = Image::with_rgba(3, 2);
    assert_eq!(a.dimensions(), b.dimensions());
    assert_eq!(a.format(), b.format());
    assert_eq!(a.as_bytes(), b.as_bytes());
    assert_eq!(a.as_bytes().len(), 24);
}

#[test]
fn an_image_whose_bytes_do_not_match_its_size_is_not_encoded() {
    let img = Image::from_vec(2, 2, vec![0; 5], PixelFormat::Rgb);
    assert_eq!(img.encode_png().err(), Some(PixError::PngEncoding));
}

#[test]
fn premultiplying_scales_the_colors_by_alpha() {
    assert_eq!(premultiply(&[255, 128, 0, 128]), [128, 64, 0, 128]);
    assert_eq!(premultiply(&[10, 20, 30, 255, 99]), [10, 20, 30, 255]);
    assert_eq!(premultiply(&[10, 20, 30, 0]), [0, 0, 0, 0]);
}
