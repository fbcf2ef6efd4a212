//! The key colour: a colour whose pixels are left out of the clusters.

use crate::color::Color;
use crate::ieee::Binary32;
use crate::image::{ColorImage, Raster};
use vstd::prelude::*;

verus! {

/// What becomes of the pixels that have the key colour.
#[derive(Clone, Copy, Debug, PartialEq, Eq, Structural)]
pub enum KeyingAction {
    /// They are gathered in the reserved cluster with index 0.
    Keep,
    /// They belong to no cluster.
    Discard,
}

impl Default for KeyingAction {
    fn default() -> (action: KeyingAction)
        ensures
            action == KeyingAction::Keep,
    {
        KeyingAction::Keep
    }
}

/// The key colour of a job and what becomes of its pixels.
#[derive(Clone, Copy, Debug, PartialEq, Eq, Structural)]
pub struct Keying {
    /// The key colour; all zero for none.
    pub key_color: Color,
    pub keying_action: KeyingAction,
}

impl Keying {
    /// No colour is keyed.
    pub open spec fn none() -> Keying {
        Keying { key_color: Color::zero(), keying_action: KeyingAction::Keep }
    }

    /// The pixels of colour `key` are left out of the clusters.
    pub open spec fn out(key: Color) -> Keying {
        Keying { key_color: key, keying_action: KeyingAction::Discard }
    }
}

/// The number of pixels of colour `key` among the first `columns` pixels of
/// row `y`.
pub open spec fn row_matches(image: Raster, key: Color, y: int, columns: int) -> nat
    decreases columns,
{
    if columns <= 0 {
        0
    } else {
        let rest = row_matches(image, key, y, columns - 1);
        if image.at(columns - 1, y) == key {
            rest + 1
        } else {
            rest
        }
    }
}

/// The number of pixels of colour `key` in the top row and in the bottom
/// row. In an image of one row that row is both.
pub open spec fn border_matches(image: Raster, key: Color) -> nat {
    row_matches(image, key, 0, image.width as int) + row_matches(
        image,
        key,
        image.height - 1,
        image.width as int,
    )
}

/// Whether the colour `key` is keyed out of the image: the image has pixels,
/// and the share of the pixels of its top and bottom rows that have the
/// colour is not below the threshold. The threshold is taken to the nearest
/// millionth, so that a threshold given as 0.2 is met by a fifth.
pub open spec fn keyed(image: Raster, key: Color, threshold: Binary32) -> bool {
    &&& image.width > 0
    &&& image.height > 0
    &&& border_matches(image, key) * 1_000_000 >= threshold.millionths() * (2 * image.width)
}

/// Counts the pixels of colour `key` in row `y`.
fn count_row(image: &ColorImage, key: Color, y: usize) -> (count: usize)
    requires
        image@.wf(),
        y < image.height,
    ensures
        count == row_matches(image@, key, y as int, image.width as int),
        count <= image.width,
{
    let mut count: usize = 0;
    let mut x: usize = 0;
    while x < image.width
        invariant
            image@.wf(),
            y < image.height,
            x <= image.width,
            count == row_matches(image@, key, y as int, x as int),
            count <= x,
        decreases image.width - x,
    {
        if image.get_pixel(x, y) == key {
            count += 1;
        }
        x += 1;
    }
    count
}

/// Decides, once for an image and before it is clustered, whether the
/// colour `key` is keyed out of it.
pub fn decide_keying(image: &ColorImage, key: Color, threshold: Binary32) -> (keying: Keying)
    requires
        image@.wf(),
        threshold.is_share(),
    ensures
        keying == if keyed(image@, key, threshold) {
            Keying::out(key)
        } else {
            Keying::none()
        },
{
    if image.width == 0 || image.height == 0 {
        return Keying { key_color: Color::default(), keying_action: KeyingAction::Keep };
    }
    // the buffer holds four bytes for each pixel of a row, so twice the
    // width can be counted
    let bytes = image.pixels.len();
    proof {
        let w = image.width as int;
        let h = image.height as int;
        assert(image@.width * image@.height == w * h);
        assert(bytes == 4 * (w * h));
        assert(w <= w * h) by (nonlinear_arith)
            requires
                0 < w,
                1 <= h,
        ;
    }
    let matches = count_row(image, key, 0) + count_row(image, key, image.height - 1);
    let parts = threshold.to_millionths();
    assert(parts * (2 * image.width) <= 1_000_000 * 0xffff_ffff_ffff_ffff) by (nonlinear_arith)
        requires
            parts <= 1_000_000,
            2 * image.width <= 0xffff_ffff_ffff_ffff,
    ;
    if matches as u128 * 1_000_000 >= parts as u128 * (2 * image.width as u128) {
        Keying { key_color: key, keying_action: KeyingAction::Discard }
    } else {
        Keying { key_color: Color::default(), keying_action: KeyingAction::Keep }
    }
}

/// Whether two colours have the same red, green and blue.
pub open spec fn same_rgb(a: Color, b: Color) -> bool {
    a.r == b.r && a.g == b.g && a.b == b.b
}

/// Whether some pixel of the image has the red, green and blue of `color`.
pub open spec fn uses(image: Raster, color: Color) -> bool {
    exists|i: int| 0 <= i < image.len() && same_rgb(#[trigger] image.pixel(i), color)
}

/// Whether the first `count` candidates are all used by the image.
pub open spec fn all_used(image: Raster, candidates: Seq<Color>, count: int) -> bool {
    forall|j: int| 0 <= j < count ==> uses(image, #[trigger] candidates[j])
}

/// The colours that are tried as key colour, in this order: the six
/// saturated colours and a grey.
pub open spec fn standard_candidates() -> Seq<Color> {
    seq![
        Color { r: 255, g: 0, b: 0, a: 255 },
        Color { r: 0, g: 255, b: 0, a: 255 },
        Color { r: 0, g: 0, b: 255, a: 255 },
        Color { r: 255, g: 255, b: 0, a: 255 },
        Color { r: 0, g: 255, b: 255, a: 255 },
        Color { r: 255, g: 0, b: 255, a: 255 },
        Color { r: 128, g: 128, b: 128, a: 255 },
    ]
}

/// The colours that are tried as key colour.
pub fn key_candidates() -> (candidates: Vec<Color>)
    ensures
        candidates@ == standard_candidates(),
{
    let mut candidates: Vec<Color> = Vec::new();
    candidates.push(Color::new(255, 0, 0));
    candidates.push(Color::new(0, 255, 0));
    candidates.push(Color::new(0, 0, 255));
    candidates.push(Color::new(255, 255, 0));
    candidates.push(Color::new(0, 255, 255));
    candidates.push(Color::new(255, 0, 255));
    candidates.push(Color::new(128, 128, 128));
    assert(candidates@ =~= standard_candidates());
    candidates
}

/// Tells whether some pixel of the image has the red, green and blue of
/// `color`.
pub fn color_exists_in_image(image: &ColorImage, color: Color) -> (found: bool)
    requires
        image@.wf(),
    ensures
        found == uses(image@, color),
{
    let count = image.pixels.len() / 4;
    let mut i: usize = 0;
    while i < count
        invariant
            image@.pixels.len() == 4 * count <= usize::MAX,
            count == image@.len(),
            i <= count,
            forall|j: int| 0 <= j < i ==> !same_rgb(#[trigger] image@.pixel(j), color),
        decreases count - i,
    {
        if image.pixels[4 * i] == color.r && image.pixels[4 * i + 1] == color.g && image.pixels[4 * i
            + 2] == color.b {
            assert(same_rgb(image@.pixel(i as int), color));
            return true;
        }
        i += 1;
    }
    false
}

/// Finds the first candidate that the image does not use.
pub fn find_unused_color(image: &ColorImage, candidates: &[Color]) -> (found: Option<Color>)
    requires
        image@.wf(),
    ensures
        match found {
            Some(color) => exists|k: int|
                0 <= k < candidates@.len() && #[trigger] candidates@[k] == color && !uses(
                    image@,
                    color,
                ) && all_used(image@, candidates@, k),
            None => all_used(image@, candidates@, candidates@.len() as int),
        },
{
    let mut k: usize = 0;
    while k < candidates.len()
        invariant
            image@.wf(),
            k <= candidates@.len(),
            all_used(image@, candidates@, k as int),
        decreases candidates@.len() - k,
    {
        if !color_exists_in_image(image, candidates[k]) {
            assert(candidates@[k as int] == candidates@[k as int]);
            return Some(candidates[k]);
        }
        k += 1;
    }
    None
}

/// The byte of a colour that stands at place `channel` of a pixel.
pub open spec fn channel_of(color: Color, channel: int) -> u8 {
    if channel == 0 {
        color.r
    } else if channel == 1 {
        color.g
    } else if channel == 2 {
        color.b
    } else {
        color.a
    }
}

/// The image with every fully transparent pixel in the colour `key`.
pub open spec fn painted(image: Raster, key: Color) -> Raster {
    Raster {
        pixels: Seq::new(
            image.pixels.len(),
            |b: int|
                if image.pixels[4 * (b / 4) + 3] == 0 {
                    channel_of(key, b % 4)
                } else {
                    image.pixels[b]
                },
        ),
        width: image.width,
        height: image.height,
    }
}

/// A pixel of the painted image has the colour `key` if it was fully
/// transparent, and its own colour otherwise.
pub proof fn painted_pixel(image: Raster, key: Color, i: int)
    requires
        image.wf(),
        0 <= i < image.len(),
    ensures
        painted(image, key).wf(),
        painted(image, key).pixel(i) == if image.pixel(i).a == 0 {
            key
        } else {
            image.pixel(i)
        },
{
}

/// Gives every pixel that is fully transparent the colour `key`.
pub fn paint_transparent(image: &mut ColorImage, key: Color)
    requires
        old(image)@.wf(),
    ensures
        final(image)@ == painted(old(image)@, key),
        final(image)@.wf(),
{
    let count = image.pixels.len() / 4;
    let mut i: usize = 0;
    while i < count
        invariant
            image@.wf(),
            old(image)@.wf(),
            image@.pixels.len() == 4 * count <= usize::MAX,
            image.width == old(image).width,
            image.height == old(image).height,
            image@.pixels.len() == old(image)@.pixels.len(),
            i <= count,
            forall|b: int|
                0 <= b < 4 * i ==> image@.pixels[b] == #[trigger] painted(old(image)@, key).pixels[b],
            forall|b: int|
                4 * i <= b < image@.pixels.len() ==> image@.pixels[b] == old(image)@.pixels[b],
        decreases count - i,
    {
        if image.pixels[4 * i + 3] == 0 {
            image.pixels.set(4 * i, key.r);
            image.pixels.set(4 * i + 1, key.g);
            image.pixels.set(4 * i + 2, key.b);
            image.pixels.set(4 * i + 3, key.a);
        }
        i += 1;
    }
    assert(image@.pixels =~= painted(old(image)@, key).pixels);
}

/// Whether candidate `k` is the first that the image does not use.
pub open spec fn first_unused(image: Raster, candidates: Seq<Color>, k: int) -> bool {
    &&& 0 <= k < candidates.len()
    &&& !uses(image, candidates[k])
    &&& all_used(image, candidates, k)
}

/// The image that is clustered, and its keying, where `key` is the colour
/// that is tried: the painted image with the key colour left out, if it is
/// keyed, and the image as it is otherwise.
pub open spec fn keyed_with(image: Raster, key: Color, threshold: Binary32) -> (Raster, Keying) {
    if keyed(painted(image, key), key, threshold) {
        (painted(image, key), Keying::out(key))
    } else {
        (image, Keying::none())
    }
}

/// Prepares an image for clustering, once and before it is clustered. The
/// first candidate that the image does not use is tried as key colour: the
/// fully transparent pixels are painted in it, and if their share of the top
/// and bottom rows is not below the threshold, the painted image is
/// clustered with that colour left out. Otherwise, or where the image uses
/// every candidate, the image is clustered as it is.
pub fn key_image(image: ColorImage, candidates: &[Color], threshold: Binary32) -> (prepared: (
    ColorImage,
    Keying,
))
    requires
        image@.wf(),
        threshold.is_share(),
    ensures
        prepared.0@.wf(),
        all_used(image@, candidates@, candidates@.len() as int) ==> prepared.0@ == image@
            && prepared.1 == Keying::none(),
        forall|k: int| #[trigger]
            first_unused(image@, candidates@, k) ==> (prepared.0@, prepared.1) == keyed_with(
                image@,
                candidates@[k],
                threshold,
            ),
{
    match find_unused_color(&image, candidates) {
        None => {
            assert forall|k: int| #[trigger] first_unused(image@, candidates@, k) implies false by {
                assert(uses(image@, candidates@[k]));
            }
            (image, Keying { key_color: Color::default(), keying_action: KeyingAction::Keep })
        },
        Some(key) => {
            let ghost chosen = choose|k: int|
                0 <= k < candidates@.len() && #[trigger] candidates@[k] == key && !uses(image@, key)
                    && all_used(image@, candidates@, k);
            assert forall|k: int| #[trigger] first_unused(image@, candidates@, k) implies k
                == chosen by {
                if k < chosen {
                    assert(uses(image@, candidates@[k]));
                } else if chosen < k {
                    assert(uses(image@, candidates@[chosen]));
                }
            }
            let mut copy = ColorImage {
                pixels: image.pixels.clone(),
                width: image.width,
                height: image.height,
            };
            assert(copy@.pixels =~= image@.pixels);
            paint_transparent(&mut copy, key);
            let keying = decide_keying(&copy, key, threshold);
            match keying.keying_action {
                KeyingAction::Discard => (copy, keying),
                KeyingAction::Keep => (image, keying),
            }
        },
    }
}

} // verus!
