use blog_demos::unred::{clear_red, unred_png, RgbaImage, UnredError};
use image::ImageEncoder;

fn encode_png(raw: &[u8], width: u32, height: u32, color: image::ColorType) -> Vec<u8> {
    let mut buf: Vec<u8> = Vec::new();
    image::codecs::png::PngEncoder::new(&mut buf)
        .write_image(raw, width, height, color)
        .unwrap();
    buf
}

#[test]
fn clear_red_zeroes_only_the_red_bytes() {
    let mut img = RgbaImage {
        width: 2,
        height: 1,
        pixels: vec![200, 10, 20, 255, 0, 30, 40, 128],
    };
    clear_red(&mut img);
    assert_eq!(img.width, 2);
    assert_eq!(img.height, 1);
    assert_eq!(img.pixels, vec![0, 10, 20, 255, 0, 30, 40, 128]);
}

#[test]
fn clear_red_twice_is_clear_red_once() {
    let mut img = RgbaImage { width: 1, height: 2, pixels: vec![1, 2, 3, 4, 255, 255, 255, 255] };
    clear_red(&mut img);
    let once = img.pixels.clone();
    clear_red(&mut img);
    assert_eq!(img.pixels, once);
    assert_eq!(once, vec![0, 2, 3, 4, 0, 255, 255, 255]);
}

#[test]
fn clear_red_on_an_empty_picture() {
    let mut img = RgbaImage { width: 0, height: 5, pixels: vec![] };
    clear_red(&mut img);
    assert!(img.pixels.is_empty());
    assert_eq!(img.height, 5);
}

#[test]
fn unred_png_decodes_rgba_and_clears_red() {
    let raw: Vec<u8> = vec![
        255, 0, 0, 255, 10, 20, 30, 40, //
        0, 99, 98, 97, 7, 7, 7, 7,
    ];
    let png = encode_png(&raw, 2, 2, image::ColorType::Rgba8);
    let img = unred_png(&png).unwrap();
    assert_eq!(img.width, 2);
    assert_eq!(img.height, 2);
    assert_eq!(
        img.pixels,
        vec![0, 0, 0, 255, 0, 20, 30, 40, 0, 99, 98, 97, 0, 7, 7, 7]
    );
}

#[test]
fn unred_png_converts_rgb_to_opaque_rgba() {
    let raw: Vec<u8> = vec![120, 130, 140, 0, 5, 6, 250, 251, 252];
    let png = encode_png(&raw, 3, 1, image::ColorType::Rgb8);
    let img = unred_png(&png).unwrap();
    assert_eq!(img.width, 3);
    assert_eq!(img.height, 1);
    assert_eq!(img.pixels, vec![0, 130, 140, 255, 0, 5, 6, 255, 0, 251, 252, 255]);
}

#[test]
fn unred_png_rejects_bytes_that_are_not_png() {
    let res = unred_png(&[1, 2, 3, 4, 5, 6, 7, 8]);
    assert!(matches!(res, Err(UnredError::Decode)));
    assert!(matches!(unred_png(&[]), Err(UnredError::Decode)));
}

#[test]
fn unred_png_rejects_a_truncated_png() {
    let raw: Vec<u8> = vec![1, 2, 3, 4];
    let png = encode_png(&raw, 1, 1, image::ColorType::Rgba8);
    let res = unred_png(&png[..png.len() / 2]);
    assert!(matches!(res, Err(UnredError::Decode)));
}
