//! Colours, and the two measures that compare them.

use vstd::arithmetic::div_mod::{lemma_div_is_ordered_by_denominator, lemma_div_pos_is_pos};
use vstd::arithmetic::power2::{lemma_pow2_pos, pow2};
use vstd::bits::lemma_u8_shr_is_div;
use vstd::prelude::*;

verus! {

/// An RGBA colour with 8 bits per channel.
#[derive(Clone, Copy, Debug, PartialEq, Eq, Structural)]
pub struct Color {
    pub r: u8,
    pub g: u8,
    pub b: u8,
    pub a: u8,
}

impl Color {
    /// An opaque colour.
    pub fn new(r: u8, g: u8, b: u8) -> (c: Color)
        ensures
            c == (Color { r, g, b, a: 255 }),
    {
        Color { r, g, b, a: 255 }
    }

    /// A colour with the opacity `a`.
    pub fn new_rgba(r: u8, g: u8, b: u8, a: u8) -> (c: Color)
        ensures
            c == (Color { r, g, b, a }),
    {
        Color { r, g, b, a }
    }

    /// The colour with every channel at zero. As a key colour it stands for
    /// no key.
    pub open spec fn zero() -> Color {
        Color { r: 0, g: 0, b: 0, a: 0 }
    }
}

impl Default for Color {
    fn default() -> (c: Color)
        ensures
            c == Color::zero(),
    {
        Color { r: 0, g: 0, b: 0, a: 0 }
    }
}

/// The absolute value of an integer.
pub open spec fn abs(x: int) -> int {
    if x < 0 {
        -x
    } else {
        x
    }
}

/// The distance between two colours: the sum over the four channels of the
/// absolute differences.
pub open spec fn diff(a: Color, b: Color) -> int {
    abs(a.r - b.r) + abs(a.g - b.g) + abs(a.b - b.b) + abs(a.a - b.a)
}

/// A channel with its `shift` lowest bits dropped: the quotient by 2 to the
/// power of `shift`.
pub open spec fn quantize(channel: u8, shift: int) -> int {
    channel as int / pow2(shift as nat) as int
}

/// Whether two colours count as the same: after quantization, no channel
/// differs by more than `threshold`.
pub open spec fn same(a: Color, b: Color, shift: int, threshold: int) -> bool {
    &&& abs(quantize(a.r, shift) - quantize(b.r, shift)) <= threshold
    &&& abs(quantize(a.g, shift) - quantize(b.g, shift)) <= threshold
    &&& abs(quantize(a.b, shift) - quantize(b.b, shift)) <= threshold
    &&& abs(quantize(a.a, shift) - quantize(b.a, shift)) <= threshold
}

/// Four signed 32-bit channels, for arithmetic on colours.
#[derive(Clone, Copy, Debug, PartialEq, Eq, Structural)]
pub struct ColorI32Alpha {
    pub r: i32,
    pub g: i32,
    pub b: i32,
    pub a: i32,
}

impl ColorI32Alpha {
    /// The channels of a colour.
    pub fn new(color: &Color) -> (c: ColorI32Alpha)
        ensures
            c.r == color.r,
            c.g == color.g,
            c.b == color.b,
            c.a == color.a,
    {
        ColorI32Alpha { r: color.r as i32, g: color.g as i32, b: color.b as i32, a: color.a as i32 }
    }

    /// Whether every channel is that of a colour.
    pub open spec fn is_color(&self) -> bool {
        &&& 0 <= self.r < 256
        &&& 0 <= self.g < 256
        &&& 0 <= self.b < 256
        &&& 0 <= self.a < 256
    }

    /// Whether the channel-wise sum with `other` fits the channels.
    pub open spec fn can_add(&self, other: &ColorI32Alpha) -> bool {
        &&& i32::MIN <= self.r + other.r <= i32::MAX
        &&& i32::MIN <= self.g + other.g <= i32::MAX
        &&& i32::MIN <= self.b + other.b <= i32::MAX
        &&& i32::MIN <= self.a + other.a <= i32::MAX
    }

    /// Whether the channel-wise difference with `other` fits the channels.
    pub open spec fn can_diff(&self, other: &ColorI32Alpha) -> bool {
        &&& i32::MIN <= self.r - other.r <= i32::MAX
        &&& i32::MIN <= self.g - other.g <= i32::MAX
        &&& i32::MIN <= self.b - other.b <= i32::MAX
        &&& i32::MIN <= self.a - other.a <= i32::MAX
    }

    /// The sum, channel by channel.
    pub fn add(&self, other: &ColorI32Alpha) -> (sum: ColorI32Alpha)
        requires
            self.can_add(other),
        ensures
            sum.r == self.r + other.r,
            sum.g == self.g + other.g,
            sum.b == self.b + other.b,
            sum.a == self.a + other.a,
    {
        ColorI32Alpha {
            r: self.r + other.r,
            g: self.g + other.g,
            b: self.b + other.b,
            a: self.a + other.a,
        }
    }

    /// The difference, channel by channel.
    pub fn diff(&self, other: &ColorI32Alpha) -> (d: ColorI32Alpha)
        requires
            self.can_diff(other),
        ensures
            d.r == self.r - other.r,
            d.g == self.g - other.g,
            d.b == self.b - other.b,
            d.a == self.a - other.a,
    {
        ColorI32Alpha {
            r: self.r - other.r,
            g: self.g - other.g,
            b: self.b - other.b,
            a: self.a - other.a,
        }
    }

    /// The colour with these channels.
    pub fn to_color(&self) -> (c: Color)
        requires
            self.is_color(),
        ensures
            c.r == self.r,
            c.g == self.g,
            c.b == self.b,
            c.a == self.a,
    {
        Color::new_rgba(self.r as u8, self.g as u8, self.b as u8, self.a as u8)
    }
}

/// The absolute value of a channel difference.
fn magnitude(x: i32) -> (m: i32)
    requires
        x > i32::MIN,
    ensures
        m == abs(x as int),
{
    if x < 0 {
        -x
    } else {
        x
    }
}

/// The distance between two colours.
pub fn color_diff(a: Color, b: Color) -> (d: i32)
    ensures
        d == diff(a, b),
        0 <= d <= 1020,
{
    let a = ColorI32Alpha::new(&a);
    let b = ColorI32Alpha::new(&b);
    magnitude(a.r - b.r) + magnitude(a.g - b.g) + magnitude(a.b - b.b) + magnitude(a.a - b.a)
}

/// A channel shifted right, as a signed number.
fn shifted(channel: u8, shift: i32) -> (q: i32)
    requires
        0 <= shift < 8,
    ensures
        q == quantize(channel, shift as int),
        0 <= q < 256,
{
    let s: u8 = shift as u8;
    proof {
        lemma_u8_shr_is_div(channel, s);
        lemma_pow2_pos(s as nat);
        lemma_div_pos_is_pos(channel as int, pow2(s as nat) as int);
        lemma_div_is_ordered_by_denominator(channel as int, 1, pow2(s as nat) as int);
    }
    (channel >> s) as i32
}

/// Tells whether two colours count as the same. The shift must leave a bit
/// of each channel.
pub fn color_same(a: Color, b: Color, shift: i32, thres: i32) -> (s: bool)
    requires
        0 <= shift < 8,
    ensures
        s == same(a, b, shift as int, thres as int),
{
    let diff = (ColorI32Alpha {
        r: shifted(a.r, shift),
        g: shifted(a.g, shift),
        b: shifted(a.b, shift),
        a: shifted(a.a, shift),
    }).diff(
        &ColorI32Alpha {
            r: shifted(b.r, shift),
            g: shifted(b.g, shift),
            b: shifted(b.b, shift),
            a: shifted(b.a, shift),
        },
    );
    magnitude(diff.r) <= thres && magnitude(diff.g) <= thres && magnitude(diff.b) <= thres
        && magnitude(diff.a) <= thres
}

/// Whether two colours count as the same does not depend on the order in
/// which they are given.
pub proof fn same_is_symmetric(a: Color, b: Color, shift: int, threshold: int)
    ensures
        same(a, b, shift, threshold) == same(b, a, shift, threshold),
{
}

/// A colour is at distance zero from itself.
pub proof fn diff_of_a_color_to_itself(a: Color)
    ensures
        diff(a, a) == 0,
{
}

/// The distance does not depend on the order of the two colours, and lies
/// between 0 and 1020.
pub proof fn diff_is_symmetric_and_bounded(a: Color, b: Color)
    ensures
        diff(a, b) == diff(b, a),
        0 <= diff(a, b) <= 1020,
{
}

} // verus!
