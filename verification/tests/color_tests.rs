use vtracer::color::{color_diff, color_same, Color, ColorI32Alpha};

#[test]
fn diff_sums_the_four_channels() {
    let a = Color::new_rgba(10, 20, 30, 40);
    let b = Color::new_rgba(13, 15, 30, 255);
    assert_eq!(color_diff(a, b), 3 + 5 + 0 + 215);
}

#[test]
fn diff_of_a_color_to_itself_is_zero() {
    for c in [Color::new(0, 0, 0), Color::new(255, 1, 77), Color::new_rgba(9, 8, 7, 6)] {
        assert_eq!(color_diff(c, c), 0);
    }
}

#[test]
fn diff_is_symmetric() {
    let a = Color::new_rgba(200, 3, 99, 0);
    let b = Color::new_rgba(1, 250, 100, 255);
    assert_eq!(color_diff(a, b), color_diff(b, a));
    assert_eq!(color_diff(a, b), 199 + 247 + 1 + 255);
}

#[test]
fn diff_is_at_most_1020() {
    let black = Color::new_rgba(0, 0, 0, 0);
    let white = Color::new_rgba(255, 255, 255, 255);
    assert_eq!(color_diff(black, white), 1020);
    assert_eq!(color_diff(white, black), 1020);
}

#[test]
fn new_makes_an_opaque_color() {
    assert_eq!(Color::new(1, 2, 3), Color { r: 1, g: 2, b: 3, a: 255 });
    assert_eq!(Color::default(), Color { r: 0, g: 0, b: 0, a: 0 });
}

#[test]
fn same_compares_quantized_channels() {
    let a = Color::new_rgba(16, 16, 16, 255);
    let b = Color::new_rgba(47, 16, 16, 255);
    // 16 >> 4 = 1 and 47 >> 4 = 2
    assert!(color_same(a, b, 4, 1));
    assert!(!color_same(a, b, 4, 0));
    // without a shift the channels differ by 31
    assert!(!color_same(a, b, 0, 30));
    assert!(color_same(a, b, 0, 31));
}

#[test]
fn same_looks_at_every_channel() {
    let a = Color::new_rgba(100, 100, 100, 100);
    assert!(color_same(a, a, 0, 0));
    assert!(!color_same(a, Color::new_rgba(101, 100, 100, 100), 0, 0));
    assert!(!color_same(a, Color::new_rgba(100, 101, 100, 100), 0, 0));
    assert!(!color_same(a, Color::new_rgba(100, 100, 101, 100), 0, 0));
    assert!(!color_same(a, Color::new_rgba(100, 100, 100, 101), 0, 0));
}

#[test]
fn same_is_symmetric() {
    let colors = [
        Color::new_rgba(0, 0, 0, 0),
        Color::new_rgba(255, 255, 255, 255),
        Color::new_rgba(16, 31, 32, 47),
        Color::new_rgba(17, 200, 3, 128),
    ];
    for a in colors {
        for b in colors {
            for shift in 0..8 {
                for threshold in [-1, 0, 1, 5, 300] {
                    assert_eq!(color_same(a, b, shift, threshold), color_same(b, a, shift, threshold));
                }
            }
        }
    }
}

#[test]
fn same_with_a_negative_threshold_is_never_true() {
    let a = Color::new(1, 2, 3);
    assert!(!color_same(a, a, 0, -1));
}

#[test]
fn same_with_the_largest_shift_keeps_the_top_bit() {
    let dark = Color::new_rgba(127, 0, 127, 0);
    let light = Color::new_rgba(128, 128, 128, 128);
    assert!(color_same(dark, Color::new_rgba(0, 127, 0, 127), 7, 0));
    assert!(!color_same(dark, light, 7, 0));
    assert!(color_same(dark, light, 7, 1));
}

#[test]
fn wide_colors_add_and_subtract_by_channel() {
    let a = ColorI32Alpha::new(&Color::new_rgba(1, 2, 3, 4));
    let b = ColorI32Alpha { r: 10, g: -20, b: 30, a: -40 };
    assert_eq!(a.add(&b), ColorI32Alpha { r: 11, g: -18, b: 33, a: -36 });
    assert_eq!(a.diff(&b), ColorI32Alpha { r: -9, g: 22, b: -27, a: 44 });
}

#[test]
fn wide_color_turns_back_into_a_color() {
    let c = Color::new_rgba(0, 255, 17, 200);
    assert_eq!(ColorI32Alpha::new(&c).to_color(), c);
    assert_eq!(ColorI32Alpha { r: 255, g: 0, b: 1, a: 2 }.to_color(), Color::new_rgba(255, 0, 1, 2));
}
