use vtracer::color::Color;
use vtracer::ieee::Binary32;
use vtracer::image::ColorImage;
use vtracer::keying::{
    color_exists_in_image, decide_keying, find_unused_color, key_candidates, key_image, paint_transparent, Keying,
    KeyingAction,
};

fn share(value: f32) -> Binary32 {
    Binary32 { bits: value.to_bits() }
}

fn key() -> Color {
    Color::new_rgba(0, 0, 0, 0)
}

fn ink() -> Color {
    Color::new(10, 20, 30)
}

/// An image of `width` by `height` pixels of ink, with `top` keyed pixels at
/// the start of the top row and `bottom` of them at the start of the bottom
/// row.
fn image(width: usize, height: usize, top: usize, bottom: usize) -> ColorImage {
    let mut pixels = Vec::new();
    for y in 0..height {
        for x in 0..width {
            let keyed = (y == 0 && x < top) || (y + 1 == height && x < bottom);
            let c = if keyed { key_in_image() } else { ink() };
            pixels.extend_from_slice(&[c.r, c.g, c.b, c.a]);
        }
    }
    ColorImage { pixels, width, height }
}

fn key_in_image() -> Color {
    Color::new(255, 0, 255)
}

fn out() -> Keying {
    Keying { key_color: key_in_image(), keying_action: KeyingAction::Discard }
}

fn none() -> Keying {
    Keying { key_color: key(), keying_action: KeyingAction::Keep }
}

#[test]
fn border_of_one_colour_is_keyed_out() {
    let image = image(10, 6, 10, 10);
    assert_eq!(decide_keying(&image, key_in_image(), share(0.2)), out());
    assert_eq!(decide_keying(&image, key_in_image(), share(1.0)), out());
}

#[test]
fn share_at_or_above_the_threshold_is_keyed_out() {
    // 5 of 20 border pixels: a quarter
    assert_eq!(decide_keying(&image(10, 6, 3, 2), key_in_image(), share(0.2)), out());
    assert_eq!(decide_keying(&image(10, 6, 5, 0), key_in_image(), share(0.25)), out());
    assert_eq!(decide_keying(&image(10, 6, 0, 5), key_in_image(), share(0.25)), out());
}

#[test]
fn share_below_the_threshold_is_not_keyed() {
    // 2 of 20 border pixels: a tenth
    assert_eq!(decide_keying(&image(10, 6, 1, 1), key_in_image(), share(0.2)), none());
    assert_eq!(decide_keying(&image(10, 6, 2, 0), key_in_image(), share(0.2)), none());
    assert_eq!(decide_keying(&image(10, 6, 0, 0), key_in_image(), share(0.2)), none());
    // 4 of 16 is a quarter, a millionth more is not reached
    assert_eq!(decide_keying(&image(8, 3, 4, 0), key_in_image(), share(0.25)), out());
    assert_eq!(decide_keying(&image(8, 3, 4, 0), key_in_image(), share(0.250001)), none());
}

#[test]
fn threshold_is_taken_to_the_nearest_millionth() {
    // the single-precision number nearest to 0.2 lies just above a fifth
    assert_eq!(decide_keying(&image(10, 6, 4, 0), key_in_image(), share(0.2)), out());
    assert_eq!(decide_keying(&image(10, 6, 3, 0), key_in_image(), share(0.2)), none());
    // the one nearest to 0.1 lies just above a tenth
    assert_eq!(decide_keying(&image(10, 6, 2, 0), key_in_image(), share(0.1)), out());
    assert_eq!(decide_keying(&image(10, 6, 1, 0), key_in_image(), share(0.1)), none());
    assert_eq!(decide_keying(&image(10, 6, 2, 0), key_in_image(), share(0.1000004)), out());
    assert_eq!(decide_keying(&image(10, 6, 2, 0), key_in_image(), share(0.1000006)), none());
}

#[test]
fn only_the_top_and_bottom_rows_count() {
    let mut image = image(4, 5, 0, 0);
    // key every pixel of the rows between
    for y in 1..4 {
        for x in 0..4 {
            let c = key_in_image();
            image.pixels[(y * 4 + x) * 4..(y * 4 + x) * 4 + 4].copy_from_slice(&[c.r, c.g, c.b, c.a]);
        }
    }
    assert_eq!(decide_keying(&image, key_in_image(), share(0.2)), none());
}

#[test]
fn threshold_of_zero_keys_every_image_with_pixels() {
    assert_eq!(decide_keying(&image(10, 6, 0, 0), key_in_image(), share(0.0)), out());
    assert_eq!(decide_keying(&image(10, 6, 0, 0), key_in_image(), share(-0.0)), out());
    // less than half a millionth counts as zero
    assert_eq!(decide_keying(&image(10, 6, 0, 0), key_in_image(), share(f32::MIN_POSITIVE)), out());
    assert_eq!(decide_keying(&image(10, 6, 0, 0), key_in_image(), share(f32::from_bits(1))), out());
    assert_eq!(decide_keying(&image(10, 6, 0, 0), key_in_image(), share(0.0000004)), out());
    assert_eq!(decide_keying(&image(10, 6, 0, 0), key_in_image(), share(0.0000006)), none());
    assert_eq!(decide_keying(&image(10, 6, 1, 0), key_in_image(), share(0.0000006)), out());
}

#[test]
fn image_without_pixels_is_not_keyed() {
    assert_eq!(decide_keying(&ColorImage::new(), key_in_image(), share(0.0)), none());
    let flat = ColorImage { pixels: Vec::new(), width: 7, height: 0 };
    assert_eq!(decide_keying(&flat, key_in_image(), share(0.0)), none());
}

#[test]
fn image_of_one_row_counts_that_row_twice() {
    // 3 of 4 pixels, counted as 6 of 8
    assert_eq!(decide_keying(&image(4, 1, 3, 3), key_in_image(), share(0.75)), out());
    assert_eq!(decide_keying(&image(4, 1, 3, 3), key_in_image(), share(0.76)), none());
}

#[test]
fn all_four_channels_must_match() {
    let image = image(4, 2, 4, 4);
    assert_eq!(decide_keying(&image, Color::new_rgba(255, 0, 255, 254), share(0.2)), none());
    assert_eq!(decide_keying(&image, Color::new_rgba(255, 0, 255, 255), share(0.2)), out());
}

#[test]
fn default_action_keeps() {
    assert_eq!(KeyingAction::default(), KeyingAction::Keep);
}

fn pixels_of(colors: &[Color], width: usize) -> ColorImage {
    let mut pixels = Vec::new();
    for c in colors {
        pixels.extend_from_slice(&[c.r, c.g, c.b, c.a]);
    }
    ColorImage { pixels, width, height: colors.len() / width }
}

#[test]
fn candidates_are_the_saturated_colours_and_a_grey() {
    let expected = [(255, 0, 0), (0, 255, 0), (0, 0, 255), (255, 255, 0), (0, 255, 255), (255, 0, 255), (128, 128, 128)];
    let candidates = key_candidates();
    assert_eq!(candidates.len(), 7);
    for (c, (r, g, b)) in candidates.iter().zip(expected) {
        assert_eq!(*c, Color::new(r, g, b));
    }
}

#[test]
fn colour_is_found_by_red_green_and_blue() {
    let image = pixels_of(&[Color::new(1, 2, 3), Color::new_rgba(4, 5, 6, 0)], 2);
    assert!(color_exists_in_image(&image, Color::new(1, 2, 3)));
    assert!(color_exists_in_image(&image, Color::new_rgba(1, 2, 3, 0)));
    assert!(color_exists_in_image(&image, Color::new(4, 5, 6)));
    assert!(!color_exists_in_image(&image, Color::new(1, 2, 4)));
    assert!(!color_exists_in_image(&image, Color::new(1, 3, 3)));
    assert!(!color_exists_in_image(&image, Color::new(0, 2, 3)));
    assert!(!color_exists_in_image(&ColorImage::new(), Color::new(0, 0, 0)));
}

#[test]
fn first_unused_candidate_is_found() {
    let candidates = key_candidates();
    let image = pixels_of(&[Color::new(255, 0, 0), Color::new(0, 0, 255), Color::new_rgba(0, 255, 0, 7)], 3);
    assert_eq!(find_unused_color(&image, &candidates), Some(Color::new(255, 255, 0)));
    assert_eq!(find_unused_color(&image, &candidates[..3]), None);
    assert_eq!(find_unused_color(&image, &[]), None);
    assert_eq!(find_unused_color(&ColorImage::new(), &candidates), Some(Color::new(255, 0, 0)));
}

#[test]
fn transparent_pixels_are_painted() {
    let ink = Color::new_rgba(1, 2, 3, 4);
    let clear = Color::new_rgba(9, 9, 9, 0);
    let mut image = pixels_of(&[ink, clear, clear, ink, Color::new_rgba(0, 0, 0, 0), Color::new_rgba(0, 0, 0, 1)], 3);
    paint_transparent(&mut image, key_in_image());
    let key = key_in_image();
    let expected = pixels_of(&[ink, key, key, ink, key, Color::new_rgba(0, 0, 0, 1)], 3);
    assert_eq!(image.pixels, expected.pixels);
    assert_eq!((image.width, image.height), (3, 2));
}

#[test]
fn image_with_a_transparent_border_is_keyed() {
    let clear = Color::new_rgba(0, 0, 0, 0);
    let red = Color::new(255, 0, 0);
    // 3 of the 8 pixels of the two rows are transparent
    let image = pixels_of(&[clear, clear, red, red, red, red, red, red, clear, red, red, red], 4);
    let (prepared, keying) = key_image(image.clone(), &key_candidates(), share(0.375));
    let green = Color::new(0, 255, 0);
    assert_eq!(keying, Keying { key_color: green, keying_action: KeyingAction::Discard });
    let expected = pixels_of(&[green, green, red, red, red, red, red, red, green, red, red, red], 4);
    assert_eq!(prepared.pixels, expected.pixels);
    // a higher threshold leaves the image as it is
    let (prepared, keying) = key_image(image.clone(), &key_candidates(), share(0.4));
    assert_eq!(keying, none());
    assert_eq!(prepared.pixels, image.pixels);
    // and so does a lack of candidates
    let (prepared, keying) = key_image(image.clone(), &[red], share(0.0));
    assert_eq!(keying, none());
    assert_eq!(prepared.pixels, image.pixels);
}

#[test]
fn opaque_image_is_keyed_only_by_a_threshold_of_zero() {
    let image = image(10, 6, 0, 0);
    let (prepared, keying) = key_image(image.clone(), &key_candidates(), share(0.2));
    assert_eq!(keying, none());
    assert_eq!(prepared.pixels, image.pixels);
    let (prepared, keying) = key_image(image.clone(), &key_candidates(), share(0.0));
    assert_eq!(keying, Keying { key_color: Color::new(255, 0, 0), keying_action: KeyingAction::Discard });
    assert_eq!(prepared.pixels, image.pixels);
}
