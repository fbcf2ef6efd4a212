//! Binary floating-point numbers of IEEE 754, held by their bit patterns.
//!
//! A threshold of a conversion is such a number. The library works on it
//! with integers only: among the numbers that are not negative, the order of
//! the values is the order of the bit patterns, and a share is rounded to
//! millionths.

use vstd::arithmetic::div_mod::{
    lemma_basic_div, lemma_div_is_ordered, lemma_div_multiples_vanish_quotient,
    lemma_fundamental_div_mod, lemma_fundamental_div_mod_converse, lemma_mod_bound,
};
use vstd::arithmetic::mul::{
    lemma_mul_inequality, lemma_mul_is_commutative, lemma_mul_strict_inequality,
};
use vstd::arithmetic::power2::{
    lemma2_to64, lemma2_to64_rest, lemma_pow2_adds, lemma_pow2_pos, lemma_pow2_strictly_increases,
    pow2,
};
use vstd::bits::lemma_u64_shl_is_mul;
use vstd::prelude::*;

verus! {

/// The magnitude that the bits below the sign bit stand for, in units of
/// the smallest positive number of the format. `width` is the number of
/// fraction bits; the bits above them are the exponent field. With an
/// exponent field of 0 the fraction counts the units; otherwise the fraction
/// with a leading 1 is doubled once for each step of the exponent above 1.
pub open spec fn magnitude(low: nat, width: nat) -> nat {
    let exponent = low / pow2(width);
    let fraction = low % pow2(width);
    if exponent == 0 {
        fraction
    } else {
        (pow2(width) + fraction) * pow2((exponent - 1) as nat)
    }
}

/// The magnitude of a pattern with a larger exponent field is larger.
proof fn magnitude_grows_with_the_exponent(a: nat, b: nat, width: nat)
    requires
        a / pow2(width) < b / pow2(width),
    ensures
        magnitude(a, width) < magnitude(b, width),
{
    let unit = pow2(width);
    lemma_pow2_pos(width);
    let ea = a / unit;
    let eb = b / unit;
    let fa = a % unit;
    let fb = b % unit;
    lemma_mod_bound(a as int, unit as int);
    lemma_mod_bound(b as int, unit as int);
    let wb = pow2((eb - 1) as nat);
    lemma_pow2_pos((eb - 1) as nat);
    // the larger one is at least unit * 2^(eb - 1)
    assert(unit * wb <= (unit + fb) * wb) by {
        lemma_mul_inequality(unit as int, (unit + fb) as int, wb as int);
    }
    if ea == 0 {
        assert(unit * 1 <= unit * wb) by {
            lemma_mul_inequality(1, wb as int, unit as int);
            lemma_mul_is_commutative(unit as int, wb as int);
        }
    } else {
        let wa = pow2((ea - 1) as nat);
        lemma_pow2_pos((ea - 1) as nat);
        // the smaller one is below 2 * unit * 2^(ea - 1) = unit * 2^ea
        assert((unit + fa) * wa < (2 * unit) * wa) by {
            lemma_mul_strict_inequality((unit + fa) as int, (2 * unit) as int, wa as int);
        }
        assert(2 * wa == pow2(ea)) by {
            lemma_pow2_adds(1, (ea - 1) as nat);
            lemma2_to64();
        }
        assert((2 * unit) * wa == unit * pow2(ea)) by (nonlinear_arith)
            requires
                2 * wa == pow2(ea),
        ;
        assert(pow2(ea) <= wb) by {
            if ea < eb - 1 {
                lemma_pow2_strictly_increases(ea, (eb - 1) as nat);
            }
        }
        assert(unit * pow2(ea) <= unit * wb) by {
            lemma_mul_inequality(pow2(ea) as int, wb as int, unit as int);
            lemma_mul_is_commutative(unit as int, wb as int);
            lemma_mul_is_commutative(unit as int, pow2(ea) as int);
        }
    }
}

/// Among patterns that are not negative, the smaller pattern stands for the
/// smaller magnitude.
pub proof fn magnitude_is_monotonic(a: nat, b: nat, width: nat)
    ensures
        a <= b <==> magnitude(a, width) <= magnitude(b, width),
{
    let unit = pow2(width);
    lemma_pow2_pos(width);
    lemma_fundamental_div_mod(a as int, unit as int);
    lemma_fundamental_div_mod(b as int, unit as int);
    lemma_mod_bound(a as int, unit as int);
    lemma_mod_bound(b as int, unit as int);
    let ea = a / unit;
    let eb = b / unit;
    if ea < eb {
        magnitude_grows_with_the_exponent(a, b, width);
        assert(unit * ea + unit <= unit * eb) by (nonlinear_arith)
            requires
                ea + 1 <= eb,
        ;
    } else if eb < ea {
        magnitude_grows_with_the_exponent(b, a, width);
        assert(unit * eb + unit <= unit * ea) by (nonlinear_arith)
            requires
                eb + 1 <= ea,
        ;
    } else if ea > 0 {
        let w = pow2((ea - 1) as nat);
        lemma_pow2_pos((ea - 1) as nat);
        let fa = a % unit;
        let fb = b % unit;
        if fa <= fb {
            lemma_mul_inequality((unit + fa) as int, (unit + fb) as int, w as int);
        } else {
            lemma_mul_strict_inequality((unit + fb) as int, (unit + fa) as int, w as int);
        }
    }
}

/// Only the pattern of zero stands for the magnitude zero.
pub proof fn magnitude_of_zero(low: nat, width: nat)
    ensures
        magnitude(low, width) == 0 <==> low == 0,
{
    lemma_pow2_pos(width);
    assert(magnitude(0, width) == 0) by {
        assert(0nat / pow2(width) == 0 && 0nat % pow2(width) == 0) by (nonlinear_arith)
            requires
                pow2(width) > 0,
        ;
    }
    magnitude_is_monotonic(low, 0, width);
}

/// A number in double precision: a sign bit, 11 bits of exponent and 52 bits
/// of fraction.
#[derive(Clone, Copy, Debug, PartialEq, Eq, Structural)]
pub struct Binary64 {
    pub bits: u64,
}

impl Binary64 {
    /// The bits below the sign bit.
    pub open spec fn low(self) -> nat {
        (self.bits % 0x8000_0000_0000_0000) as nat
    }

    /// Whether the sign bit is set.
    pub open spec fn is_negative(self) -> bool {
        self.bits >= 0x8000_0000_0000_0000
    }

    /// Whether the pattern stands for no number.
    pub open spec fn is_nan(self) -> bool {
        self.low() > 0x7ff0_0000_0000_0000
    }

    /// The magnitude in units of 2^-1074; that of infinity is above the
    /// magnitude of every number.
    pub open spec fn size(self) -> nat {
        magnitude(self.low(), 52)
    }

    /// Whether this is a number or infinity and is not negative, so that it
    /// can bound a range.
    pub open spec fn is_bound(self) -> bool {
        !self.is_negative() && !self.is_nan()
    }

    /// Whether this is a number and is not below `bound`, which is not
    /// negative.
    pub open spec fn at_least(self, bound: Binary64) -> bool {
        &&& !self.is_nan()
        &&& if self.is_negative() {
            self.size() == 0 && bound.size() == 0
        } else {
            self.size() >= bound.size()
        }
    }

    /// Whether this is a number and is not above `bound`, which is not
    /// negative.
    pub open spec fn at_most(self, bound: Binary64) -> bool {
        &&& !self.is_nan()
        &&& (self.is_negative() || self.size() <= bound.size())
    }

    /// The range from `low` to `high`, told by the patterns: a number that
    /// is not negative lies in it exactly if its pattern lies between the
    /// patterns of the bounds, and of the negative ones only zero lies in it,
    /// where `low` is zero.
    pub proof fn range_by_patterns(self, low: Binary64, high: Binary64)
        requires
            low.is_bound(),
            high.is_bound(),
        ensures
            (self.at_least(low) && self.at_most(high)) <==> if self.is_negative() {
                self.bits == 0x8000_0000_0000_0000 && low.bits == 0
            } else {
                low.bits <= self.bits <= high.bits
            },
    {
        magnitude_of_zero(self.low(), 52);
        magnitude_of_zero(low.low(), 52);
        magnitude_is_monotonic(low.low(), self.low(), 52);
        magnitude_is_monotonic(self.low(), high.low(), 52);
    }

    /// Whether the number lies in the range from `low` to `high`.
    pub fn between(self, low: Binary64, high: Binary64) -> (inside: bool)
        requires
            low.is_bound(),
            high.is_bound(),
        ensures
            inside == (self.at_least(low) && self.at_most(high)),
    {
        proof {
            self.range_by_patterns(low, high);
        }
        if self.bits >= 0x8000_0000_0000_0000 {
            self.bits == 0x8000_0000_0000_0000 && low.bits == 0
        } else {
            low.bits <= self.bits && self.bits <= high.bits
        }
    }
}

/// A number in single precision: a sign bit, 8 bits of exponent and 23 bits
/// of fraction.
#[derive(Clone, Copy, Debug, PartialEq, Eq, Structural)]
pub struct Binary32 {
    pub bits: u32,
}

impl Binary32 {
    /// The bits below the sign bit.
    pub open spec fn low(self) -> nat {
        (self.bits % 0x8000_0000) as nat
    }

    /// Whether the sign bit is set.
    pub open spec fn is_negative(self) -> bool {
        self.bits >= 0x8000_0000
    }

    /// Whether the pattern stands for no number.
    pub open spec fn is_nan(self) -> bool {
        self.low() > 0x7f80_0000
    }

    /// The magnitude in units of 2^-149; that of infinity is above the
    /// magnitude of every number.
    pub open spec fn size(self) -> nat {
        magnitude(self.low(), 23)
    }

    /// Whether this is a number or infinity and is not negative, so that it
    /// can bound a range.
    pub open spec fn is_bound(self) -> bool {
        !self.is_negative() && !self.is_nan()
    }

    /// Whether this is a number and is not below `bound`, which is not
    /// negative.
    pub open spec fn at_least(self, bound: Binary32) -> bool {
        &&& !self.is_nan()
        &&& if self.is_negative() {
            self.size() == 0 && bound.size() == 0
        } else {
            self.size() >= bound.size()
        }
    }

    /// Whether this is a number and is not above `bound`, which is not
    /// negative.
    pub open spec fn at_most(self, bound: Binary32) -> bool {
        &&& !self.is_nan()
        &&& (self.is_negative() || self.size() <= bound.size())
    }

    /// Whether this is a number from 0 to 1.
    pub open spec fn is_share(self) -> bool {
        self.at_least(Binary32 { bits: 0 }) && self.at_most(Binary32 { bits: 0x3f80_0000 })
    }

    /// The number in millionths, rounded to the nearest whole, halves up.
    /// The sign is left out.
    pub open spec fn millionths(self) -> nat {
        (self.size() * 2_000_000 + pow2(149)) / pow2(150)
    }

    /// The number, a share, in millionths.
    pub fn to_millionths(self) -> (parts: u32)
        requires
            self.is_share(),
        ensures
            parts == self.millionths(),
            parts <= 1_000_000,
    {
        proof {
            self.range_by_patterns(Binary32 { bits: 0 }, Binary32 { bits: 0x3f80_0000 });
            lemma2_to64();
            lemma2_to64_rest();
            lemma_pow2_adds(149, 1);
        }
        if self.bits >= 0x8000_0000 {
            proof {
                magnitude_of_zero(0, 23);
                lemma_pow2_pos(149);
                lemma_basic_div(pow2(149) as int, pow2(150) as int);
            }
            return 0;
        }
        let bits = self.bits;
        let exponent: u32 = bits >> 23;
        let fraction: u32 = bits & 0x7f_ffff;
        proof {
            assert(bits >> 23 == bits / 0x80_0000) by (bit_vector);
            assert(bits & 0x7f_ffff == bits % 0x80_0000) by (bit_vector);
            assert(0x3f80_0000nat / 0x80_0000 == 127);
        }
        let significand: u64 = if exponent == 0 {
            fraction as u64
        } else {
            0x80_0000 + fraction as u64
        };
        let doublings: u32 = if exponent == 0 {
            0
        } else {
            exponent - 1
        };
        let halvings: u32 = 149 - doublings;
        assert(exponent == self.low() / pow2(23) && exponent <= 127);
        assert(self.size() == significand * pow2(doublings as nat));
        let doubled: u64 = significand * 2_000_000;
        proof {
            // both the dividend and the divisor hold 2^doublings
            let d = pow2(doublings as nat) as int;
            let h = pow2(halvings as nat) as int;
            lemma_pow2_pos(doublings as nat);
            lemma_pow2_pos(halvings as nat);
            lemma_pow2_adds(doublings as nat, halvings as nat);
            lemma_pow2_adds(halvings as nat, 1);
            lemma_pow2_adds(doublings as nat, (halvings + 1) as nat);
            assert(self.size() * 2_000_000 + pow2(149) == d * (doubled + h)) by (nonlinear_arith)
                requires
                    self.size() == significand * d,
                    doubled == significand * 2_000_000,
                    pow2(149) == d * h,
            ;
            assert(pow2(150) == d * (2 * h)) by (nonlinear_arith)
                requires
                    pow2(150) == d * pow2((halvings + 1) as nat),
                    pow2((halvings + 1) as nat) == h * 2,
            ;
            lemma_div_multiples_vanish_quotient(d, doubled + h, 2 * h);
            assert(self.millionths() == (doubled + h) / (2 * h));
            // a share is at most a million millionths
            assert(doubled <= 2_000_000 * h) by {
                magnitude_is_monotonic(self.low(), 0x3f80_0000, 23);
                singles_by_name();
                assert(self.size() <= pow2(149));
                if doubled > 2_000_000 * h {
                    assert(significand * d > h * d) by (nonlinear_arith)
                        requires
                            significand * 2_000_000 > 2_000_000 * h,
                            d > 0,
                    ;
                }
            }
            assert((doubled + h) / (2 * h) <= 1_000_000) by {
                lemma_div_is_ordered(doubled + h, 2_000_000 * h + h, 2 * h);
                assert(2_000_000 * h + h == (2 * h) * 1_000_000 + h);
                lemma_fundamental_div_mod_converse(2_000_000 * h + h, 2 * h, 1_000_000, h);
            }
        }
        if halvings >= 46 {
            proof {
                if halvings > 46 {
                    lemma_pow2_strictly_increases(46, halvings as nat);
                }
                lemma_basic_div(
                    doubled + pow2(halvings as nat) as int,
                    2 * pow2(halvings as nat) as int,
                );
            }
            0
        } else {
            proof {
                lemma_pow2_strictly_increases(halvings as nat, 46);
                lemma_u64_shl_is_mul(1, halvings as u64);
            }
            let unit: u64 = 1u64 << halvings;
            ((doubled + unit) / (2 * unit)) as u32
        }
    }

    /// The range from `low` to `high`, told by the patterns: a number that
    /// is not negative lies in it exactly if its pattern lies between the
    /// patterns of the bounds, and of the negative ones only zero lies in it,
    /// where `low` is zero.
    pub proof fn range_by_patterns(self, low: Binary32, high: Binary32)
        requires
            low.is_bound(),
            high.is_bound(),
        ensures
            (self.at_least(low) && self.at_most(high)) <==> if self.is_negative() {
                self.bits == 0x8000_0000 && low.bits == 0
            } else {
                low.bits <= self.bits <= high.bits
            },
    {
        magnitude_of_zero(self.low(), 23);
        magnitude_of_zero(low.low(), 23);
        magnitude_is_monotonic(low.low(), self.low(), 23);
        magnitude_is_monotonic(self.low(), high.low(), 23);
    }

    /// Whether the number lies in the range from `low` to `high`.
    pub fn between(self, low: Binary32, high: Binary32) -> (inside: bool)
        requires
            low.is_bound(),
            high.is_bound(),
        ensures
            inside == (self.at_least(low) && self.at_most(high)),
    {
        proof {
            self.range_by_patterns(low, high);
        }
        if self.bits >= 0x8000_0000 {
            self.bits == 0x8000_0000 && low.bits == 0
        } else {
            low.bits <= self.bits && self.bits <= high.bits
        }
    }
}

/// What a pattern in double precision stands for: the magnitude of 3.5 is
/// seven halves of 2^1074 units, that of 4 is four times and that of 10 ten
/// times 2^1074 units.
pub proof fn doubles_by_name()
    ensures
        2 * magnitude(0x400c_0000_0000_0000, 52) == 7 * pow2(1074),
        magnitude(0x4010_0000_0000_0000, 52) == 4 * pow2(1074),
        magnitude(0x4024_0000_0000_0000, 52) == 10 * pow2(1074),
{
    lemma2_to64();
    lemma2_to64_rest();
    let unit = pow2(52);
    assert(unit == 0x10_0000_0000_0000);
    assert(0x400c_0000_0000_0000nat / unit == 1024 && 0x400c_0000_0000_0000nat % unit
        == 0xc_0000_0000_0000);
    assert(0x4010_0000_0000_0000nat / unit == 1025 && 0x4010_0000_0000_0000nat % unit == 0);
    assert(0x4024_0000_0000_0000nat / unit == 1026 && 0x4024_0000_0000_0000nat % unit
        == 0x4_0000_0000_0000);
    // 3.5 = 7 * 2^50 * 2^1023 units
    lemma_pow2_adds(51, 1023);
    assert(2 * ((unit + 0xc_0000_0000_0000) * pow2(1023)) == 7 * (pow2(51) * pow2(1023)))
        by (nonlinear_arith)
        requires
            unit == 0x10_0000_0000_0000,
            pow2(51) == 0x8_0000_0000_0000,
    ;
    // 4 = 2^52 * 2^1024 units
    lemma_pow2_adds(2, 1074);
    lemma_pow2_adds(52, 1024);
    // 10 = 5 * 2^50 * 2^1025 units
    lemma_pow2_adds(1, 1074);
    lemma_pow2_adds(50, 1025);
    assert((unit + 0x4_0000_0000_0000) * pow2(1025) == 5 * (pow2(50) * pow2(1025)))
        by (nonlinear_arith)
        requires
            unit == 0x10_0000_0000_0000,
            pow2(50) == 0x4_0000_0000_0000,
    ;
    assert(5 * pow2(1075) == 10 * pow2(1074)) by (nonlinear_arith)
        requires
            pow2(1075) == 2 * pow2(1074),
    ;
}

/// What a pattern in single precision stands for: the magnitude of 1 is
/// 2^149 units, and that of the number nearest to a fifth lies 2^123 units
/// above a fifth of it.
pub proof fn singles_by_name()
    ensures
        magnitude(0, 23) == 0,
        magnitude(0x3f80_0000, 23) == pow2(149),
        5 * magnitude(0x3e4c_cccd, 23) == pow2(149) + pow2(123),
{
    lemma2_to64();
    magnitude_of_zero(0, 23);
    let unit = pow2(23);
    assert(unit == 0x80_0000);
    assert(0x3f80_0000nat / unit == 127 && 0x3f80_0000nat % unit == 0);
    assert(0x3e4c_cccdnat / unit == 124 && 0x3e4c_cccdnat % unit == 0x4c_cccd);
    lemma_pow2_adds(23, 126);
    lemma_pow2_adds(26, 123);
    assert(5 * ((unit + 0x4c_cccd) * pow2(123)) == pow2(26) * pow2(123) + pow2(123))
        by (nonlinear_arith)
        requires
            unit == 0x80_0000,
            pow2(26) == 0x400_0000,
    ;
}

/// The single-precision number nearest to a fifth is 200000 millionths.
pub proof fn a_fifth_in_millionths()
    ensures
        (Binary32 { bits: 0x3e4c_cccd }).millionths() == 200_000,
{
    singles_by_name();
    lemma2_to64();
    let size = magnitude(0x3e4c_cccd, 23) as int;
    let unit = pow2(123) as int;
    lemma_pow2_pos(123);
    lemma_pow2_adds(26, 123);
    lemma_pow2_adds(27, 123);
    assert(pow2(149) == 0x400_0000 * unit);
    assert(pow2(150) == 0x800_0000 * unit);
    assert(size == 13421773 * unit);
    assert(size * 2_000_000 + pow2(149) == 0x800_0000 * unit * 200_000 + 67508864 * unit)
        by (nonlinear_arith)
        requires
            size == 13421773 * unit,
            pow2(149) == 0x400_0000 * unit,
    ;
    assert(67508864 * unit < 0x800_0000 * unit) by (nonlinear_arith)
        requires
            unit > 0,
    ;
    lemma_fundamental_div_mod_converse(
        size * 2_000_000 + pow2(149),
        pow2(150) as int,
        200_000,
        67508864 * unit,
    );
}

} // verus!
