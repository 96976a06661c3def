//! Floating-point values carried as their IEEE 754 bit patterns.
//!
//! The shell stores, compares and rounds coordinates, pressures and latencies here.
//! Sums, products and roots are left to its callers.

use vstd::prelude::*;

verus! {

/// Distance between the bit patterns of `+x` and `-x` in a binary32 value.
pub const SINGLE_SIGN: u32 = 0x8000_0000;

/// Magnitude of a binary32 infinity; every larger magnitude is a NaN.
pub const SINGLE_INFINITY: u32 = 0x7f80_0000;

/// Number of fractions that share one exponent in a binary32 value.
pub const SINGLE_FRACTIONS: u32 = 0x0080_0000;

/// Distance between the bit patterns of `+x` and `-x` in a binary64 value.
pub const DOUBLE_SIGN: u64 = 0x8000_0000_0000_0000;

/// Magnitude of a binary64 infinity; every larger magnitude is a NaN.
pub const DOUBLE_INFINITY: u64 = 0x7ff0_0000_0000_0000;

/// A binary32 value, held as its bit pattern.
#[derive(Clone, Copy, Debug, PartialEq, Eq, Structural)]
pub struct Single {
    pub bits: u32,
}

/// A binary64 value, held as its bit pattern.
#[derive(Clone, Copy, Debug, PartialEq, Eq, Structural)]
pub struct Double {
    pub bits: u64,
}

/// What `magnitude` bits of a binary32 value are worth, counted in units of two to the
/// power of minus 149, the smallest positive binary32 value. An infinity is worth more
/// than every finite value.
pub open spec fn units(magnitude: int) -> int {
    let exponent = magnitude / (SINGLE_FRACTIONS as int);
    let fraction = magnitude % (SINGLE_FRACTIONS as int);
    if exponent == 0 {
        fraction
    } else {
        (SINGLE_FRACTIONS + fraction) * vstd::arithmetic::power2::pow2((exponent - 1) as nat)
    }
}

impl Single {
    /// The sign bit.
    pub open spec fn negative(self) -> bool {
        self.bits >= SINGLE_SIGN
    }

    /// The bits below the sign bit.
    pub open spec fn magnitude(self) -> int {
        self.bits as int % SINGLE_SIGN as int
    }

    pub open spec fn nan(self) -> bool {
        self.magnitude() > SINGLE_INFINITY
    }

    pub open spec fn finite(self) -> bool {
        self.magnitude() < SINGLE_INFINITY
    }

    /// Orders every value that is no NaN; both zeros share the rank zero.
    pub open spec fn rank(self) -> int {
        if self.negative() {
            -self.magnitude()
        } else {
            self.magnitude()
        }
    }

    /// The exact value of a finite number, in units of two to the power of minus 149.
    pub open spec fn value(self) -> int {
        if self.negative() {
            -units(self.magnitude())
        } else {
            units(self.magnitude())
        }
    }

    /// `self < other`, which is false as soon as one side is a NaN.
    pub open spec fn below(self, other: Single) -> bool {
        !self.nan() && !other.nan() && self.rank() < other.rank()
    }

    /// `self <= other`, which is false as soon as one side is a NaN.
    pub open spec fn at_most(self, other: Single) -> bool {
        !self.nan() && !other.nan() && self.rank() <= other.rank()
    }

    /// `self == other` as numbers: the zeros are equal and a NaN equals nothing.
    pub open spec fn same_number(self, other: Single) -> bool {
        !self.nan() && !other.nan() && self.rank() == other.rank()
    }

    /// The larger of two values; a NaN gives way to the other value.
    pub open spec fn larger(self, other: Single) -> Single {
        if self.nan() || self.below(other) {
            other
        } else {
            self
        }
    }

    /// The smaller of two values; a NaN gives way to the other value.
    pub open spec fn smaller(self, other: Single) -> Single {
        if self.nan() || other.below(self) {
            other
        } else {
            self
        }
    }

    /// Positive zero.
    pub fn zero() -> (r: Single)
        ensures
            r == (Single { bits: 0 }),
    {
        Single { bits: 0 }
    }

    pub fn is_nan(self) -> (r: bool)
        ensures
            r == self.nan(),
    {
        self.bits % SINGLE_SIGN > SINGLE_INFINITY
    }

    pub fn is_finite(self) -> (r: bool)
        ensures
            r == self.finite(),
    {
        self.bits % SINGLE_SIGN < SINGLE_INFINITY
    }

    fn signed_rank(self) -> (r: i64)
        ensures
            r == self.rank(),
    {
        if self.bits >= SINGLE_SIGN {
            -((self.bits % SINGLE_SIGN) as i64)
        } else {
            (self.bits % SINGLE_SIGN) as i64
        }
    }

    pub fn lt(self, other: Single) -> (r: bool)
        ensures
            r == self.below(other),
    {
        !self.is_nan() && !other.is_nan() && self.signed_rank() < other.signed_rank()
    }

    pub fn le(self, other: Single) -> (r: bool)
        ensures
            r == self.at_most(other),
    {
        !self.is_nan() && !other.is_nan() && self.signed_rank() <= other.signed_rank()
    }

    pub fn equals(self, other: Single) -> (r: bool)
        ensures
            r == self.same_number(other),
    {
        !self.is_nan() && !other.is_nan() && self.signed_rank() == other.signed_rank()
    }

    pub fn max(self, other: Single) -> (r: Single)
        ensures
            r == self.larger(other),
    {
        if self.is_nan() || self.lt(other) {
            other
        } else {
            self
        }
    }

    pub fn min(self, other: Single) -> (r: Single)
        ensures
            r == self.smaller(other),
    {
        if self.is_nan() || other.lt(self) {
            other
        } else {
            self
        }
    }
}

/// A longer magnitude is worth more.
proof fn lemma_units_increase(low: int, high: int)
    requires
        0 <= low < high <= SINGLE_INFINITY,
    ensures
        units(low) < units(high),
{
    let fractions = SINGLE_FRACTIONS as int;
    let (low_exponent, low_fraction) = (low / fractions, low % fractions);
    let (high_exponent, high_fraction) = (high / fractions, high % fractions);
    assert(low_exponent <= high_exponent);
    if low_exponent == high_exponent {
        assert(low_fraction < high_fraction);
        if low_exponent > 0 {
            let scale = vstd::arithmetic::power2::pow2((low_exponent - 1) as nat) as int;
            vstd::arithmetic::power2::lemma_pow2_pos((low_exponent - 1) as nat);
            assert((fractions + low_fraction) * scale < (fractions + high_fraction) * scale)
                by (nonlinear_arith)
                requires
                    low_fraction < high_fraction,
                    scale > 0,
            ;
        }
    } else {
        let high_scale = vstd::arithmetic::power2::pow2((high_exponent - 1) as nat) as int;
        vstd::arithmetic::power2::lemma_pow2_pos((high_exponent - 1) as nat);
        assert((fractions + high_fraction) * high_scale >= fractions * high_scale)
            by (nonlinear_arith)
            requires
                high_fraction >= 0,
                high_scale > 0,
        ;
        if low_exponent == 0 {
            assert(fractions * high_scale >= fractions) by (nonlinear_arith)
                requires
                    high_scale > 0,
                    fractions > 0,
            ;
        } else {
            let low_scale = vstd::arithmetic::power2::pow2((low_exponent - 1) as nat) as int;
            vstd::arithmetic::power2::lemma_pow2_pos((low_exponent - 1) as nat);
            vstd::arithmetic::power2::lemma_pow2_unfold(low_exponent as nat);
            if low_exponent < high_exponent - 1 {
                vstd::arithmetic::power2::lemma_pow2_strictly_increases(
                    low_exponent as nat,
                    (high_exponent - 1) as nat,
                );
            }
            assert(high_scale >= 2 * low_scale);
            assert((fractions + low_fraction) * low_scale < fractions * high_scale)
                by (nonlinear_arith)
                requires
                    high_scale >= 2 * low_scale,
                    low_scale > 0,
                    0 <= low_fraction < fractions,
            ;
        }
    }
}

/// Comparing ranks compares the numbers themselves.
pub proof fn rank_orders_values(a: Single, b: Single)
    requires
        a.finite(),
        b.finite(),
    ensures
        a.rank() < b.rank() <==> a.value() < b.value(),
        a.rank() == b.rank() <==> a.value() == b.value(),
{
    let (m, n) = (a.magnitude(), b.magnitude());
    if m < n {
        lemma_units_increase(m, n);
    }
    if n < m {
        lemma_units_increase(n, m);
    }
    if m > 0 {
        lemma_units_increase(0, m);
    }
    if n > 0 {
        lemma_units_increase(0, n);
    }
}

/// `max` and `min` pick one of their arguments, and no number lies above the one or below
/// the other.
pub proof fn extremes_bound_both_arguments(a: Single, b: Single)
    ensures
        a.larger(b) == a || a.larger(b) == b,
        a.smaller(b) == a || a.smaller(b) == b,
        !a.larger(b).below(a) && !a.larger(b).below(b),
        !a.below(a.smaller(b)) && !b.below(a.smaller(b)),
        a.larger(b).nan() <==> a.nan() && b.nan(),
        a.smaller(b).nan() <==> a.nan() && b.nan(),
{
}

/// `n` limited to the range of a `u32`.
pub open spec fn clamp_u32(n: int) -> int {
    if n < 0 {
        0
    } else if n > u32::MAX {
        u32::MAX as int
    } else {
        n
    }
}

/// The largest integer that is not above `x`, limited to the range of a `u32`. A NaN
/// counts as zero.
pub open spec fn floor_clamped(x: Single) -> int {
    if x.nan() {
        0
    } else if !x.finite() {
        if x.negative() {
            0
        } else {
            u32::MAX as int
        }
    } else {
        clamp_u32(x.value() / vstd::arithmetic::power2::pow2(149) as int)
    }
}

/// The smallest integer that is not below `x`, limited to the range of a `u32`. A NaN
/// counts as zero.
pub open spec fn ceil_clamped(x: Single) -> int {
    if x.nan() {
        0
    } else if !x.finite() {
        if x.negative() {
            0
        } else {
            u32::MAX as int
        }
    } else {
        clamp_u32(-((-x.value()) / vstd::arithmetic::power2::pow2(149) as int))
    }
}

/// Dividing `significand * scale` by `step * scale` rounds as dividing `significand` by
/// `step` does, downwards and upwards.
proof fn lemma_quotients(significand: int, step: int, scale: int)
    requires
        significand >= 0,
        step > 0,
        scale > 0,
    ensures
        (significand * scale) / (step * scale) == significand / step,
        -((-(significand * scale)) / (step * scale)) == if significand % step == 0 {
            significand / step
        } else {
            significand / step + 1
        },
{
    let quotient = significand / step;
    let rest = significand % step;
    let divisor = step * scale;
    vstd::arithmetic::div_mod::lemma_fundamental_div_mod(significand, step);
    assert(divisor > 0 && 0 <= rest * scale < divisor && significand * scale == quotient * divisor
        + rest * scale) by (nonlinear_arith)
        requires
            significand == step * quotient + rest,
            0 <= rest < step,
            step > 0,
            scale > 0,
            divisor == step * scale,
    ;
    vstd::arithmetic::div_mod::lemma_fundamental_div_mod_converse(
        significand * scale,
        divisor,
        quotient,
        rest * scale,
    );
    if rest == 0 {
        assert(-(significand * scale) == (-quotient) * divisor + 0) by (nonlinear_arith)
            requires
                significand * scale == quotient * divisor + rest * scale,
                rest == 0,
        ;
        vstd::arithmetic::div_mod::lemma_fundamental_div_mod_converse(
            -(significand * scale),
            divisor,
            -quotient,
            0,
        );
    } else {
        assert(-(significand * scale) == (-quotient - 1) * divisor + (divisor - rest * scale) && 0
            <= divisor - rest * scale < divisor) by (nonlinear_arith)
            requires
                significand * scale == quotient * divisor + rest * scale,
                0 < rest,
                scale > 0,
                0 <= rest * scale < divisor,
        ;
        vstd::arithmetic::div_mod::lemma_fundamental_div_mod_converse(
            -(significand * scale),
            divisor,
            -quotient - 1,
            divisor - rest * scale,
        );
    }
}

/// What a positive finite magnitude is worth next to one, by its exponent.
proof fn lemma_units_by_exponent(magnitude: int)
    requires
        0 <= magnitude < SINGLE_INFINITY,
    ensures
        ({
            let one = vstd::arithmetic::power2::pow2(149) as int;
            let exponent = magnitude / (SINGLE_FRACTIONS as int);
            let significand = SINGLE_FRACTIONS + magnitude % (SINGLE_FRACTIONS as int);
            &&& exponent < 127 ==> 0 <= units(magnitude) < one
            &&& 127 <= exponent < 150 ==> {
                let step = vstd::arithmetic::power2::pow2((150 - exponent) as nat) as int;
                &&& units(magnitude) / one == significand / step
                &&& -((-units(magnitude)) / one) == if significand % step == 0 {
                    significand / step
                } else {
                    significand / step + 1
                }
            }
            &&& 150 <= exponent ==> {
                let whole = significand * vstd::arithmetic::power2::pow2((exponent - 150) as nat);
                &&& units(magnitude) / one == whole
                &&& -((-units(magnitude)) / one) == whole
            }
        }),
{
    let one = vstd::arithmetic::power2::pow2(149) as int;
    let exponent = magnitude / (SINGLE_FRACTIONS as int);
    let fraction = magnitude % (SINGLE_FRACTIONS as int);
    let significand = SINGLE_FRACTIONS + fraction;
    vstd::arithmetic::power2::lemma_pow2_pos(149);
    vstd::arithmetic::power2::lemma2_to64();
    if exponent == 0 {
        vstd::arithmetic::power2::lemma_pow2_strictly_increases(24, 149);
    } else if exponent < 127 {
        let scale = vstd::arithmetic::power2::pow2((exponent - 1) as nat) as int;
        vstd::arithmetic::power2::lemma_pow2_pos((exponent - 1) as nat);
        vstd::arithmetic::power2::lemma_pow2_adds(24, (exponent - 1) as nat);
        if exponent < 126 {
            vstd::arithmetic::power2::lemma_pow2_strictly_increases((exponent + 23) as nat, 149);
        }
        assert(0 <= significand * scale < 0x100_0000 * scale) by (nonlinear_arith)
            requires
                0 <= significand < 0x100_0000,
                scale > 0,
        ;
    } else if exponent < 150 {
        let scale = vstd::arithmetic::power2::pow2((exponent - 1) as nat) as int;
        let step = vstd::arithmetic::power2::pow2((150 - exponent) as nat) as int;
        vstd::arithmetic::power2::lemma_pow2_pos((exponent - 1) as nat);
        vstd::arithmetic::power2::lemma_pow2_pos((150 - exponent) as nat);
        vstd::arithmetic::power2::lemma_pow2_adds((150 - exponent) as nat, (exponent - 1) as nat);
        lemma_quotients(significand, step, scale);
    } else {
        let whole = significand * vstd::arithmetic::power2::pow2((exponent - 150) as nat);
        vstd::arithmetic::power2::lemma_pow2_pos((exponent - 150) as nat);
        vstd::arithmetic::power2::lemma_pow2_adds((exponent - 150) as nat, 149);
        assert(significand * (vstd::arithmetic::power2::pow2((exponent - 150) as nat) * one)
            == whole * one && whole >= 0) by (nonlinear_arith)
            requires
                whole == significand * vstd::arithmetic::power2::pow2((exponent - 150) as nat),
                significand >= 0,
        ;
        lemma_quotients(whole, 1, one);
    }
}

impl Single {
    /// Rounds down to an integer that fits a `u32`.
    pub fn floor_u32(self) -> (r: u32)
        ensures
            r == floor_clamped(self),
    {
        let magnitude: u32 = self.bits % SINGLE_SIGN;
        if magnitude > SINGLE_INFINITY {
            return 0;
        }
        if self.bits >= SINGLE_SIGN {
            proof {
                lemma_negative_rounds_to_zero(self);
            }
            return 0;
        }
        if magnitude == SINGLE_INFINITY {
            return u32::MAX;
        }
        let exponent: u32 = magnitude / SINGLE_FRACTIONS;
        let significand: u32 = SINGLE_FRACTIONS + magnitude % SINGLE_FRACTIONS;
        proof {
            lemma_units_by_exponent(magnitude as int);
        }
        if exponent < 127 {
            proof {
                vstd::arithmetic::div_mod::lemma_basic_div(
                    self.value(),
                    vstd::arithmetic::power2::pow2(149) as int,
                );
            }
            0
        } else if exponent < 150 {
            let shift: u32 = 150 - exponent;
            proof {
                vstd::bits::lemma_u32_shr_is_div(significand, shift);
            }
            significand >> shift
        } else {
            scale_up(significand, exponent - 150)
        }
    }

    /// Rounds up to an integer that fits a `u32`.
    pub fn ceil_u32(self) -> (r: u32)
        ensures
            r == ceil_clamped(self),
    {
        let magnitude: u32 = self.bits % SINGLE_SIGN;
        if magnitude > SINGLE_INFINITY {
            return 0;
        }
        if self.bits >= SINGLE_SIGN || magnitude == 0 {
            proof {
                lemma_negative_rounds_to_zero(self);
            }
            return 0;
        }
        if magnitude == SINGLE_INFINITY {
            return u32::MAX;
        }
        let exponent: u32 = magnitude / SINGLE_FRACTIONS;
        let significand: u32 = SINGLE_FRACTIONS + magnitude % SINGLE_FRACTIONS;
        proof {
            lemma_units_by_exponent(magnitude as int);
        }
        if exponent < 127 {
            proof {
                let one = vstd::arithmetic::power2::pow2(149) as int;
                lemma_units_increase(0, magnitude as int);
                vstd::arithmetic::div_mod::lemma_fundamental_div_mod_converse(
                    -self.value(),
                    one,
                    -1,
                    one - self.value(),
                );
            }
            1
        } else if exponent < 150 {
            let shift: u32 = 150 - exponent;
            let whole: u32 = significand >> shift;
            proof {
                let step = vstd::arithmetic::power2::pow2(shift as nat) as int;
                vstd::bits::lemma_u32_shr_is_div(significand, shift);
                vstd::arithmetic::power2::lemma_pow2_pos(shift as nat);
                vstd::arithmetic::div_mod::lemma_fundamental_div_mod(significand as int, step);
                assert(0 <= whole * step <= significand) by (nonlinear_arith)
                    requires
                        significand == step * whole + significand as int % step,
                        0 <= significand as int % step,
                        step > 0,
                        whole >= 0,
                ;
                assert(step * whole == whole * step) by (nonlinear_arith);
                vstd::bits::lemma_u32_shl_is_mul(whole, shift);
            }
            if whole << shift == significand {
                whole
            } else {
                whole + 1
            }
        } else {
            scale_up(significand, exponent - 150)
        }
    }
}

/// No negative number, and neither zero, rounds to a positive integer.
proof fn lemma_negative_rounds_to_zero(x: Single)
    requires
        x.negative() || x.magnitude() == 0,
    ensures
        floor_clamped(x) == 0,
        ceil_clamped(x) == 0,
{
    if x.finite() {
        let one = vstd::arithmetic::power2::pow2(149) as int;
        vstd::arithmetic::power2::lemma_pow2_pos(149);
        if x.magnitude() > 0 {
            lemma_units_increase(0, x.magnitude());
        }
        vstd::arithmetic::div_mod::lemma_div_is_ordered(x.value(), 0, one);
        vstd::arithmetic::div_mod::lemma_div_pos_is_pos(-x.value(), one);
        vstd::arithmetic::div_mod::lemma_div_basics(one);
    }
}

/// `significand` times two to the power of `shift`, limited to the range of a `u32`.
fn scale_up(significand: u32, shift: u32) -> (r: u32)
    requires
        SINGLE_FRACTIONS <= significand < 0x100_0000,
    ensures
        r == clamp_u32(significand * vstd::arithmetic::power2::pow2(shift as nat)),
{
    proof {
        vstd::arithmetic::power2::lemma2_to64();
        vstd::arithmetic::power2::lemma_pow2_pos(shift as nat);
    }
    if shift < 9 {
        proof {
            let scale = vstd::arithmetic::power2::pow2(shift as nat) as int;
            if shift < 8 {
                vstd::arithmetic::power2::lemma_pow2_strictly_increases(shift as nat, 8);
            }
            assert(0 <= significand * scale <= u32::MAX) by (nonlinear_arith)
                requires
                    0 <= significand < 0x100_0000,
                    0 < scale <= 0x100,
            ;
            vstd::bits::lemma_u32_shl_is_mul(significand, shift);
        }
        significand << shift
    } else {
        proof {
            let scale = vstd::arithmetic::power2::pow2(shift as nat) as int;
            if shift > 9 {
                vstd::arithmetic::power2::lemma_pow2_strictly_increases(9, shift as nat);
            }
            assert(significand * scale > u32::MAX) by (nonlinear_arith)
                requires
                    significand >= 0x80_0000,
                    scale >= 0x200,
            ;
        }
        u32::MAX
    }
}

impl Double {
    pub open spec fn finite(self) -> bool {
        (self.bits as int % DOUBLE_SIGN as int) < DOUBLE_INFINITY
    }

    /// Positive zero.
    pub fn zero() -> (r: Double)
        ensures
            r == (Double { bits: 0 }),
    {
        Double { bits: 0 }
    }

    pub fn is_finite(self) -> (r: bool)
        ensures
            r == self.finite(),
    {
        self.bits % DOUBLE_SIGN < DOUBLE_INFINITY
    }
}

} // verus!
