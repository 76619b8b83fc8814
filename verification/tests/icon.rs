use freddie::icon::{
    crop, crop_to_alpha, glyph_width, opaque_bounds, prepare_icon, Bounds, IconError, Rgba,
    GLYPH_HEIGHT, ICON_PAD,
};
use std::io::Cursor;

fn image_of(width: u32, height: u32, drawn: &[(u32, u32, u8)]) -> Rgba {
    let mut pixels = vec![0u8; (4 * width * height) as usize];
    for &(x, y, alpha) in drawn {
        let at = (4 * (y * width + x)) as usize;
        pixels[at] = 200;
        pixels[at + 1] = 100;
        pixels[at + 2] = 50;
        pixels[at + 3] = alpha;
    }
    Rgba { width, height, pixels }
}

fn png_of(width: u32, height: u32, drawn: &[(u32, u32)]) -> Vec<u8> {
    let mut img = image::RgbaImage::new(width, height);
    for &(x, y) in drawn {
        img.put_pixel(x, y, image::Rgba([255, 0, 0, 255]));
    }
    let mut bytes = Vec::new();
    img.write_to(&mut Cursor::new(&mut bytes), image::ImageFormat::Png)
        .expect("encoding a small image succeeds");
    bytes
}

fn alpha(img: &Rgba, x: u32, y: u32) -> u8 {
    img.pixels[(4 * (y * img.width + x) + 3) as usize]
}

#[test]
fn nothing_drawn_has_no_bounds() {
    let img = image_of(3, 2, &[(0, 0, 16), (2, 1, 0)]);
    assert_eq!(opaque_bounds(&img), None);
}

#[test]
fn bounds_take_in_every_drawn_pixel() {
    let img = image_of(5, 4, &[(1, 2, 255), (3, 0, 17), (4, 3, 16)]);
    assert_eq!(
        opaque_bounds(&img),
        Some(Bounds { min_x: 1, min_y: 0, max_x: 3, max_y: 2 })
    );
}

#[test]
fn one_drawn_pixel_is_its_own_bounds() {
    let img = image_of(4, 4, &[(2, 3, 200)]);
    assert_eq!(
        opaque_bounds(&img),
        Some(Bounds { min_x: 2, min_y: 3, max_x: 2, max_y: 3 })
    );
}

#[test]
fn crop_copies_the_rectangle() {
    let mut img = image_of(3, 3, &[]);
    for (k, byte) in img.pixels.iter_mut().enumerate() {
        *byte = k as u8;
    }
    let part = crop(&img, 1, 1, 2, 2);
    assert_eq!(part.width, 2);
    assert_eq!(part.height, 2);
    let expected: Vec<u8> = [16u8, 17, 18, 19, 20, 21, 22, 23, 28, 29, 30, 31, 32, 33, 34, 35].to_vec();
    assert_eq!(part.pixels, expected);
}

#[test]
fn crop_to_alpha_trims_to_the_drawn_pixels() {
    let img = image_of(5, 4, &[(1, 2, 255), (3, 1, 100)]);
    let glyph = crop_to_alpha(&img);
    assert_eq!((glyph.width, glyph.height), (3, 2));
    assert_eq!(alpha(&glyph, 2, 0), 100);
    assert_eq!(alpha(&glyph, 0, 1), 255);
    assert_eq!(alpha(&glyph, 0, 0), 0);
    assert_eq!(glyph.pixels.len(), 4 * 3 * 2);
}

#[test]
fn crop_to_alpha_keeps_a_blank_image_whole() {
    let img = image_of(2, 2, &[(1, 1, 10)]);
    let glyph = crop_to_alpha(&img);
    assert_eq!((glyph.width, glyph.height), (2, 2));
    assert_eq!(glyph.pixels, img.pixels);
}

#[test]
fn trimming_twice_gives_the_same_glyph() {
    let img = image_of(6, 5, &[(1, 1, 255), (4, 3, 255)]);
    let once = crop_to_alpha(&img);
    let twice = crop_to_alpha(&once);
    assert_eq!((once.width, once.height), (twice.width, twice.height));
    assert_eq!(once.pixels, twice.pixels);
}

#[test]
fn glyph_width_scales_and_rounds_up() {
    assert_eq!(glyph_width(10, 20, 30), 15);
    assert_eq!(glyph_width(7, 20, 30), 11);
    assert_eq!(glyph_width(1, 100, 30), 1);
}

#[test]
fn glyph_width_is_at_least_one() {
    assert_eq!(glyph_width(0, 5, 30), 1);
}

#[test]
fn a_zero_height_counts_as_one() {
    assert_eq!(glyph_width(2, 0, 30), 60);
}

#[test]
fn a_transparent_canvas_is_all_zero() {
    let canvas = Rgba::transparent(3, 2);
    assert_eq!((canvas.width, canvas.height), (3, 2));
    assert_eq!(canvas.pixels, vec![0u8; 24]);
}

#[test]
fn bytes_that_are_no_image_are_undecodable() {
    match prepare_icon(&[1, 2, 3, 4]) {
        Err(IconError::Undecodable(_)) => {}
        _ => panic!("garbage decoded"),
    }
}

#[test]
fn an_icon_is_the_glyph_scaled_and_padded() {
    let block: Vec<(u32, u32)> = (2..6).flat_map(|x| (3..5).map(move |y| (x, y))).collect();
    let png = png_of(10, 10, &block);
    let icon = match prepare_icon(&png) {
        Ok(icon) => icon,
        Err(_) => panic!("a valid png makes an icon"),
    };
    let glyph_w = (4 * GLYPH_HEIGHT).div_ceil(2);
    assert_eq!(icon.width, glyph_w + 2 * ICON_PAD);
    assert_eq!(icon.height, GLYPH_HEIGHT + 2 * ICON_PAD);
    assert_eq!(icon.pixels.len(), (4 * icon.width * icon.height) as usize);
    assert_eq!(alpha(&icon, 0, 0), 0);
    assert_eq!(alpha(&icon, icon.width - 1, icon.height - 1), 0);
    assert_eq!(alpha(&icon, ICON_PAD - 1, ICON_PAD + 10), 0);
    assert!(alpha(&icon, ICON_PAD + glyph_w / 2, ICON_PAD + GLYPH_HEIGHT / 2) > 200);
}
