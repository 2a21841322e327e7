//! The scale factor of a run and the working resolution that follows from it.
//!
//! A scale factor arrives as the bit pattern of an IEEE 754 double-precision
//! number. Its value is the fraction `significand / 2^halvings`, and all
//! arithmetic on it is done exactly, in integers.

use vstd::prelude::*;
use vstd::arithmetic::power2::{pow2, lemma_pow2_pos, lemma_pow2_strictly_increases, lemma_pow2_unfold, lemma2_to64, lemma2_to64_rest};
use crate::error::ArgumentError;

verus! {

/// Bit pattern of the scale factor one.
pub const UNIT_SCALE_BITS: u64 = 0x3FF0_0000_0000_0000;

/// Bit pattern of the scale factor used when none is given, 33 hundredths.
pub const DEFAULT_SCALE_BITS: u64 = 0x3FD5_1EB8_51EB_851F;

/// Two to the power 52, the weight of the hidden bit of a significand.
pub const HIDDEN_BIT: u64 = 0x10_0000_0000_0000;

/// Whether the sign bit of the pattern is set.
pub open spec fn sign_is_set(bits: u64) -> bool {
    bits >= 0x8000_0000_0000_0000
}

/// The exponent field of the pattern.
pub open spec fn exponent_field(bits: u64) -> nat {
    ((bits / HIDDEN_BIT) % 2048) as nat
}

/// The significand of the pattern, with the hidden bit where there is one.
pub open spec fn significand(bits: u64) -> nat {
    if exponent_field(bits) == 0 {
        (bits % HIDDEN_BIT) as nat
    } else {
        (bits % HIDDEN_BIT + HIDDEN_BIT) as nat
    }
}

/// The number of times the significand is halved to give the value: a finite
/// pattern stands for `significand / 2^halvings`.
pub open spec fn halvings(bits: u64) -> int {
    if exponent_field(bits) == 0 {
        1074
    } else {
        1075 - exponent_field(bits)
    }
}

/// Whether the pattern stands for a number `s` with `0 < s <= 1`.
pub open spec fn in_unit_interval(bits: u64) -> bool {
    &&& !sign_is_set(bits)
    &&& exponent_field(bits) != 2047
    &&& significand(bits) > 0
    &&& halvings(bits) >= 0
    &&& significand(bits) <= pow2(halvings(bits) as nat)
}

/// `s * longest`, rounded to the nearest integer, halves upwards, for the
/// number `s` that a pattern in the unit interval stands for.
pub open spec fn scaled_side(bits: u64, longest: nat) -> nat {
    let unit = pow2(halvings(bits) as nat);
    (2 * significand(bits) * longest + unit) / (2 * unit)
}

/// Among the patterns, those of the unit interval are the ones from the
/// smallest positive pattern up to the pattern of one.
pub proof fn unit_interval_by_pattern(bits: u64)
    ensures
        in_unit_interval(bits) <==> 0 < bits <= UNIT_SCALE_BITS,
{
    lemma2_to64();
    lemma2_to64_rest();
    let e = exponent_field(bits);
    if 0 < bits <= UNIT_SCALE_BITS {
        if e == 0 {
            lemma_pow2_strictly_increases(52, 1074);
        } else if e < 1022 {
            lemma_pow2_strictly_increases(53, (1075 - e) as nat);
        } else if e == 1022 {
        } else {
            assert(e == 1023);
            assert(bits % HIDDEN_BIT == 0);
        }
    } else if !sign_is_set(bits) && bits != 0 && e != 2047 {
        assert(e >= 1023);
        if e > 1023 && halvings(bits) >= 0 {
            lemma_pow2_strictly_increases((1075 - e) as nat, 52);
        }
    }
}

/// The scaled side is the integer nearest to `s * longest`: twice their
/// distance, counted in units of `1 / 2^halvings`, is at most one unit, and
/// where it is exactly one the side is the upper of the two neighbours.
pub proof fn scaled_side_is_nearest(bits: u64, longest: nat)
    requires
        in_unit_interval(bits),
    ensures
        ({
            let unit = pow2(halvings(bits) as nat) as int;
            let exact = 2 * significand(bits) * longest;
            let side = scaled_side(bits, longest) as int;
            2 * unit * side - unit <= exact < 2 * unit * side + unit
        }),
{
    let unit = pow2(halvings(bits) as nat) as int;
    let exact = (2 * significand(bits) * longest) as int;
    lemma_pow2_pos(halvings(bits) as nat);
    vstd::arithmetic::div_mod::lemma_fundamental_div_mod(exact + unit, 2 * unit);
    vstd::arithmetic::div_mod::lemma_mod_bound(exact + unit, 2 * unit);
    assert(0 <= exact) by (nonlinear_arith)
        requires
            exact == 2 * significand(bits) * longest,
    ;
    vstd::arithmetic::div_mod::lemma_div_pos_is_pos(exact + unit, 2 * unit);
}

/// The working resolution never exceeds the side it was scaled from.
pub proof fn scaled_side_is_bounded(bits: u64, longest: nat)
    requires
        in_unit_interval(bits),
    ensures
        scaled_side(bits, longest) <= longest,
{
    let unit = pow2(halvings(bits) as nat) as int;
    let s = significand(bits) as int;
    let l = longest as int;
    lemma_pow2_pos(halvings(bits) as nat);
    assert(2 * s * l + unit <= 2 * unit * l + unit) by (nonlinear_arith)
        requires
            0 <= s <= unit,
            0 <= l,
    ;
    assert((2 * unit * l + unit) / (2 * unit) == l) by (nonlinear_arith)
        requires
            unit > 0,
            l >= 0,
    ;
    vstd::arithmetic::div_mod::lemma_div_is_ordered(2 * s * l + unit, 2 * unit * l + unit, 2 * unit);
}

/// A scale factor of one keeps the side as it is.
pub proof fn unit_scale_keeps_side(longest: nat)
    ensures
        scaled_side(UNIT_SCALE_BITS, longest) == longest,
{
    lemma2_to64();
    lemma2_to64_rest();
    let unit = pow2(52) as int;
    let l = longest as int;
    assert(exponent_field(UNIT_SCALE_BITS) == 1023);
    assert(significand(UNIT_SCALE_BITS) == unit);
    assert(2 * unit * l + unit == unit * (2 * l + 1)) by (nonlinear_arith);
    assert((2 * unit * l + unit) / (2 * unit) == l) by (nonlinear_arith)
        requires
            unit > 0,
            l >= 0,
    ;
}

/// Two to the power 85 is the product of two powers within the range of the
/// machine's integers.
proof fn pow2_85()
    ensures
        pow2(85) == 0x20_0000_0000_0000_0000_0000,
{
    lemma2_to64();
    vstd::arithmetic::power2::lemma_pow2_adds(64, 21);
}

/// A scale factor: a number `s` with `0 < s <= 1`, kept as its bit pattern.
#[derive(Clone, Copy, Debug)]
pub struct ScaleFactor {
    bits: u64,
}

impl ScaleFactor {
    /// The bit pattern of the factor.
    pub closed spec fn pattern(&self) -> u64 {
        self.bits
    }

    /// The factor lies in the unit interval.
    pub open spec fn wf(&self) -> bool {
        in_unit_interval(self.pattern())
    }

    /// Accepts the bit pattern of a number in `(0, 1]` as a scale factor and
    /// rejects every other pattern: zero, negative numbers, numbers above
    /// one, infinities and patterns that stand for no number.
    pub fn from_bits(bits: u64) -> (factor: Result<ScaleFactor, ArgumentError>)
        ensures
            match factor {
                Ok(s) => in_unit_interval(bits) && s.wf() && s.pattern() == bits,
                Err(e) => !in_unit_interval(bits) && e == ArgumentError::ScaleOutOfBound,
            },
            factor is Ok <==> 0 < bits <= UNIT_SCALE_BITS,
    {
        proof {
            unit_interval_by_pattern(bits);
        }
        if 0 < bits && bits <= UNIT_SCALE_BITS {
            Ok(ScaleFactor { bits })
        } else {
            Err(ArgumentError::ScaleOutOfBound)
        }
    }

    /// The scale factor of a run: the one given, checked, or the default
    /// where none was given.
    pub fn resolve(given: Option<u64>) -> (factor: Result<ScaleFactor, ArgumentError>)
        ensures
            match factor {
                Ok(s) => s.wf() && match given {
                    Some(bits) => in_unit_interval(bits) && s.pattern() == bits,
                    None => s.pattern() == DEFAULT_SCALE_BITS,
                },
                Err(e) => e == ArgumentError::ScaleOutOfBound && match given {
                    Some(bits) => !in_unit_interval(bits),
                    None => false,
                },
            },
    {
        match given {
            Some(bits) => ScaleFactor::from_bits(bits),
            None => Ok(ScaleFactor::default()),
        }
    }

    /// The bit pattern of the factor.
    pub fn bits(&self) -> (bits: u64)
        ensures
            bits == self.pattern(),
    {
        self.bits
    }

    /// The side of the square that a picture of the given size is fitted
    /// into: the factor times the longer side, rounded to the nearest
    /// integer.
    pub fn target_side(&self, width: u32, height: u32) -> (side: u32)
        requires
            self.wf(),
        ensures
            side == scaled_side(self.pattern(), longer_side(width, height) as nat),
            side <= longer_side(width, height),
    {
        let longest: u32 = if width >= height { width } else { height };
        let field: u64 = self.bits / HIDDEN_BIT;
        let fraction: u64 = self.bits % HIDDEN_BIT;
        proof {
            unit_interval_by_pattern(self.bits);
            scaled_side_is_bounded(self.bits, longest as nat);
            pow2_85();
            assert(field <= 1023);
            assert(exponent_field(self.bits) == field);
        }
        let mantissa: u64 = if field == 0 { fraction } else { fraction + HIDDEN_BIT };
        let shift: u32 = if field == 0 { 1074 } else { (1075 - field) as u32 };
        assert(mantissa * longest < 0x20_0000_0000_0000_0000_0000) by (nonlinear_arith)
            requires
                mantissa < 0x20_0000_0000_0000,
                longest < 0x1_0000_0000,
        ;
        let product: u128 = (mantissa as u128) * (longest as u128);
        assert(2 * significand(self.bits) * (longest as nat) == 2 * product) by (nonlinear_arith)
            requires
                significand(self.bits) == mantissa,
                product == mantissa * longest,
        ;
        if shift > 85 {
            proof {
                let unit = pow2(shift as nat) as int;
                lemma_pow2_unfold(86);
                if shift > 86 {
                    lemma_pow2_strictly_increases(86, shift as nat);
                }
                vstd::arithmetic::div_mod::lemma_basic_div(2 * product + unit, 2 * unit);
            }
            return 0;
        }
        let mut unit: u128 = 1;
        let mut doubled: u32 = 0;
        proof {
            lemma2_to64();
        }
        while doubled < shift
            invariant
                doubled <= shift <= 85,
                unit == pow2(doubled as nat),
            decreases shift - doubled,
        {
            proof {
                pow2_85();
                lemma_pow2_unfold((doubled + 1) as nat);
                if doubled + 1 < 85 {
                    lemma_pow2_strictly_increases((doubled + 1) as nat, 85);
                }
            }
            unit = unit * 2;
            doubled = doubled + 1;
        }
        proof {
            if shift < 85 {
                lemma_pow2_strictly_increases(shift as nat, 85);
            }
        }
        ((2 * product + unit) / (2 * unit)) as u32
    }
}

impl Default for ScaleFactor {
    /// The factor used when none is given: 33 hundredths.
    fn default() -> (factor: ScaleFactor)
        ensures
            factor.wf(),
            factor.pattern() == DEFAULT_SCALE_BITS,
    {
        proof {
            unit_interval_by_pattern(DEFAULT_SCALE_BITS);
        }
        ScaleFactor { bits: DEFAULT_SCALE_BITS }
    }
}

/// The longer of the two sides of a picture.
pub open spec fn longer_side(width: u32, height: u32) -> u32 {
    if width >= height {
        width
    } else {
        height
    }
}

} // verus!
