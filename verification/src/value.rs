//! What the patterns stand for.
//!
//! Every finite double is a whole multiple of the smallest positive one,
//! 2^-1074. That multiple, the number's [`ticks`](Float::ticks), is read off
//! the pattern here, and the order of the patterns is shown to be the order
//! of the numbers. The constants that the conversions and the checks use
//! are shown to be the doubles nearest to the decimal numbers that they are
//! written for.
use crate::float::{Float, INFINITY_BITS};
use crate::{
    Temperature,
    Unit,
    ABS_ZERO_CELSIUS_BITS,
    ABS_ZERO_FAHRENHEIT_BITS,
    ABS_ZERO_KELVIN_BITS,
    FAHRENHEIT_PER_CELSIUS_BITS,
    FREEZING_FAHRENHEIT_BITS,
    FREEZING_KELVIN_BITS,
};
use vstd::arithmetic::power2::{
    lemma2_to64,
    lemma2_to64_rest,
    lemma_pow2_adds,
    lemma_pow2_pos,
    lemma_pow2_strictly_increases,
    lemma_pow2_unfold,
    pow2,
};
use vstd::prelude::*;

verus! {

/// 2^52: the weight of the lowest exponent bit, and of the leading bit of a
/// normal number's significand, which the pattern leaves out.
pub const HIDDEN_BIT: u64 = 0x0010_0000_0000_0000;

/// The number of ticks in 1: 2^1074.
pub open spec fn ticks_per_unit() -> nat {
    pow2(1074)
}

/// What a magnitude stands for, in ticks: the fraction bits alone while the
/// exponent bits are 0, and otherwise the fraction bits under a leading 1,
/// doubled once for each step of the exponent above 1.
pub open spec fn magnitude_ticks(m: int) -> int {
    let exponent = m / (HIDDEN_BIT as int);
    let fraction = m % (HIDDEN_BIT as int);
    if exponent == 0 {
        fraction
    } else {
        (HIDDEN_BIT + fraction) * pow2((exponent - 1) as nat)
    }
}

/// The distance, in ticks, from the number with the magnitude `m` to the
/// next one away from zero.
pub open spec fn magnitude_step(m: int) -> int {
    let exponent = m / (HIDDEN_BIT as int);
    if exponent == 0 {
        1
    } else {
        pow2((exponent - 1) as nat) as int
    }
}

impl Float {
    /// Whether this is a number, and no infinity.
    pub open spec fn is_finite(self) -> bool {
        self.magnitude() < INFINITY_BITS
    }

    /// A finite number as a multiple of 2^-1074.
    pub open spec fn ticks(self) -> int {
        if self.is_negative() {
            -magnitude_ticks(self.magnitude())
        } else {
            magnitude_ticks(self.magnitude())
        }
    }

    /// The distance, in ticks, from a finite number to the next double away
    /// from zero.
    pub open spec fn step(self) -> int {
        magnitude_step(self.magnitude())
    }

    /// How far a finite number is from the fraction `num / den`, in ticks
    /// and `den` times over, so that it is a whole number.
    pub open spec fn off_by(self, num: int, den: int) -> int {
        let gap = den * self.ticks() - num * ticks_per_unit();
        if gap < 0 {
            -gap
        } else {
            gap
        }
    }

    /// Whether this is a double nearest to the fraction `num / den`: it is
    /// finite, and no finite double is nearer.
    pub open spec fn nearest_to(self, num: int, den: int) -> bool {
        &&& self.is_finite()
        &&& forall|other: Float| other.is_finite() ==> self.off_by(num, den) <= #[trigger] other.off_by(num, den)
    }

    /// Whether the next double towards zero is as far away as the next one
    /// away from zero: so it is but for a power of two, where the doubles
    /// towards zero lie twice as close.
    pub open spec fn evenly_spaced(self) -> bool {
        self.magnitude() % (HIDDEN_BIT as int) != 0 || self.magnitude() / (HIDDEN_BIT as int) <= 1
    }
}

/// A product grows with its first factor.
proof fn lemma_product_grows(a: int, b: int, p: int)
    requires
        a < b,
        p > 0,
    ensures
        a * p < b * p,
{
    assert(a * p < b * p) by (nonlinear_arith)
        requires
            a < b,
            p > 0,
    ;
}

/// A product grows with its second factor, if not strictly.
proof fn lemma_product_grows_with_second(a: int, p: int, q: int)
    requires
        a >= 0,
        p <= q,
    ensures
        a * p <= a * q,
{
    assert(a * p <= a * q) by (nonlinear_arith)
        requires
            a >= 0,
            p <= q,
    ;
}

/// Powers of two grow with the exponent, if not strictly.
proof fn lemma_pow2_grows(e1: nat, e2: nat)
    requires
        e1 <= e2,
    ensures
        pow2(e1) <= pow2(e2),
{
    if e1 < e2 {
        lemma_pow2_strictly_increases(e1, e2);
    }
}

/// The larger of two magnitudes stands for the larger number.
pub proof fn lemma_magnitude_ticks_grow(m1: int, m2: int)
    requires
        0 <= m1 < m2,
    ensures
        0 <= magnitude_ticks(m1) < magnitude_ticks(m2),
{
    let h = HIDDEN_BIT as int;
    let e1 = m1 / h;
    let e2 = m2 / h;
    let f1 = m1 % h;
    let f2 = m2 % h;
    assert(e1 <= e2);
    assert(0 <= f1 < h && 0 <= f2 < h);
    if e1 == 0 {
        if e2 != 0 {
            let hi = pow2((e2 - 1) as nat) as int;
            lemma_pow2_pos((e2 - 1) as nat);
            lemma_product_grows_with_second(h + f2, 1, hi);
        }
    } else {
        let lo = pow2((e1 - 1) as nat) as int;
        let hi = pow2((e2 - 1) as nat) as int;
        lemma_pow2_pos((e1 - 1) as nat);
        lemma_product_grows_with_second(h + f1, 0, lo);
        if e1 == e2 {
            assert(f1 < f2);
            lemma_product_grows(h + f1, h + f2, lo);
        } else {
            // (h + f1) * lo < 2h * lo = h * 2^e1 <= h * hi <= (h + f2) * hi
            lemma_product_grows(h + f1, 2 * h, lo);
            lemma_pow2_unfold(e1 as nat);
            let q = pow2(e1 as nat) as int;
            assert(q == 2 * lo);
            assert((2 * h) * lo == h * q) by (nonlinear_arith)
                requires
                    q == 2 * lo,
            ;
            lemma_pow2_grows(e1 as nat, (e2 - 1) as nat);
            lemma_product_grows_with_second(h, q, hi);
            assert(h * hi <= (h + f2) * hi) by (nonlinear_arith)
                requires
                    f2 >= 0,
                    hi >= 0,
            ;
        }
    }
}

/// The order of the ranks is the order of the numbers: of two finite
/// numbers, the one with the lower rank is the lesser, and two with the same
/// rank are the same number.
pub proof fn lemma_rank_orders_as_ticks(a: Float, b: Float)
    requires
        a.is_finite(),
        b.is_finite(),
    ensures
        a.rank() < b.rank() <==> a.ticks() < b.ticks(),
        a.rank() == b.rank() <==> a.ticks() == b.ticks(),
{
    let ma = a.magnitude();
    let mb = b.magnitude();
    if ma < mb {
        lemma_magnitude_ticks_grow(ma, mb);
    } else if mb < ma {
        lemma_magnitude_ticks_grow(mb, ma);
    }
    if 0 < ma {
        lemma_magnitude_ticks_grow(0, ma);
    }
    if 0 < mb {
        lemma_magnitude_ticks_grow(0, mb);
    }
    assert(magnitude_ticks(0) == 0);
}

/// `<`, `>` and `==` on finite numbers are those of the numbers that the
/// patterns stand for.
pub proof fn lemma_comparison_is_numeric(a: Float, b: Float)
    requires
        a.is_finite(),
        b.is_finite(),
    ensures
        a.spec_lt(b) <==> a.ticks() < b.ticks(),
        a.spec_gt(b) <==> a.ticks() > b.ticks(),
        a.spec_eq(b) <==> a.ticks() == b.ticks(),
{
    lemma_rank_orders_as_ticks(a, b);
    lemma_rank_orders_as_ticks(b, a);
}

/// Positive infinity is above every finite number and negative infinity
/// below, and a NaN is neither above nor below nor equal to anything.
pub proof fn lemma_comparison_at_the_ends(a: Float, b: Float)
    ensures
        a.is_finite() && b.is_infinite() && !b.is_negative() ==> a.spec_lt(b),
        a.is_finite() && b.is_infinite() && b.is_negative() ==> a.spec_gt(b),
        a.is_nan() || b.is_nan() ==> !a.spec_lt(b) && !a.spec_gt(b) && !a.spec_eq(b),
{
}

/// The next magnitude stands for the number one step further from zero.
pub proof fn lemma_next_magnitude_is_a_step_away(m: int)
    requires
        0 <= m,
    ensures
        magnitude_ticks(m + 1) == magnitude_ticks(m) + magnitude_step(m),
        magnitude_step(m) >= 1,
{
    let h = HIDDEN_BIT as int;
    let e = m / h;
    let f = m % h;
    if e == 0 {
        if f == h - 1 {
            assert((m + 1) / h == 1 && (m + 1) % h == 0);
            lemma2_to64();
            assert((h + 0) * pow2(0) == h);
        } else {
            assert((m + 1) / h == 0 && (m + 1) % h == f + 1);
        }
    } else {
        let p = pow2((e - 1) as nat) as int;
        lemma_pow2_pos((e - 1) as nat);
        if f == h - 1 {
            assert((m + 1) / h == e + 1 && (m + 1) % h == 0);
            lemma_pow2_unfold(e as nat);
            let q = pow2(e as nat) as int;
            assert((h + 0) * q == (h + f) * p + p) by (nonlinear_arith)
                requires
                    q == 2 * p,
                    f == h - 1,
            ;
        } else {
            assert((m + 1) / h == e && (m + 1) % h == f + 1);
            assert((h + (f + 1)) * p == (h + f) * p + p) by (nonlinear_arith);
        }
    }
}

/// Two finite doubles are the same number or at least a step apart, the
/// step being that of either one that is evenly spaced.
pub proof fn lemma_doubles_are_a_step_apart(x: Float, y: Float)
    requires
        x.is_finite(),
        y.is_finite(),
        x.evenly_spaced(),
    ensures
        x.ticks() == y.ticks() || y.ticks() - x.ticks() >= x.step() || x.ticks() - y.ticks()
            >= x.step(),
{
    let mx = x.magnitude();
    let my = y.magnitude();
    let h = HIDDEN_BIT as int;
    lemma_next_magnitude_is_a_step_away(mx);
    if 0 < mx {
        lemma_magnitude_ticks_grow(0, mx);
    }
    if 0 < my {
        lemma_magnitude_ticks_grow(0, my);
    }
    assert(magnitude_ticks(0) == 0);
    if x.is_negative() == y.is_negative() {
        if mx + 1 < my {
            lemma_magnitude_ticks_grow(mx + 1, my);
        } else if my < mx {
            // the magnitude below that of x is in the same run of equal steps
            lemma_next_magnitude_is_a_step_away(mx - 1);
            assert(magnitude_step(mx - 1) == magnitude_step(mx)) by {
                if mx % h != 0 {
                    assert((mx - 1) / h == mx / h);
                } else {
                    assert(mx / h == 1);
                    assert((mx - 1) / h == 0);
                    lemma2_to64();
                }
            }
            if my < mx - 1 {
                lemma_magnitude_ticks_grow(my, mx - 1);
            }
        }
    } else {
        // on either side of zero: the distance is the sum
        if mx != 0 {
            lemma_whole_steps(mx);
        }
    }
}

/// A number that is not zero is at least a step from zero.
proof fn lemma_whole_steps(m: int)
    requires
        0 < m,
    ensures
        magnitude_ticks(m) >= magnitude_step(m),
{
    let h = HIDDEN_BIT as int;
    let e = m / h;
    let f = m % h;
    if e != 0 {
        let p = pow2((e - 1) as nat) as int;
        lemma_pow2_pos((e - 1) as nat);
        lemma_product_grows_with_second(p, 1, h + f);
        assert(p * (h + f) == (h + f) * p) by (nonlinear_arith);
    }
}

/// A finite double within half a step of a fraction is a double nearest to
/// it, if it is evenly spaced.
pub proof fn lemma_within_half_a_step_is_nearest(x: Float, num: int, den: int)
    requires
        x.is_finite(),
        x.evenly_spaced(),
        den > 0,
        2 * x.off_by(num, den) <= den * x.step(),
    ensures
        x.nearest_to(num, den),
{
    assert forall|other: Float| other.is_finite() implies x.off_by(num, den) <= #[trigger] other.off_by(
        num,
        den,
    ) by {
        lemma_doubles_are_a_step_apart(x, other);
        let q = num * ticks_per_unit();
        let tx = x.ticks();
        let ty = other.ticks();
        let step = x.step();
        if ty - tx >= step {
            assert(den * ty - den * tx >= den * step) by (nonlinear_arith)
                requires
                    ty - tx >= step,
                    den > 0,
            ;
        } else if tx - ty >= step {
            assert(den * tx - den * ty >= den * step) by (nonlinear_arith)
                requires
                    tx - ty >= step,
                    den > 0,
            ;
        }
    }
}

/// Half a step on either side, counted in steps: if `den * sig` misses
/// `num * c` by `k`, and `k` is within half of `den`, then with everything
/// multiplied by `p` it misses by `k * p`, which is within half of
/// `den * p`.
proof fn lemma_scaled_gap(sig: int, p: int, num: int, den: int, c: int, k: int)
    requires
        p > 0,
        den * sig - num * c == k,
        -den <= 2 * k <= den,
    ensures
        den * (sig * p) - num * (c * p) == k * p,
        den * (-(sig * p)) - (-num) * (c * p) == -(k * p),
        -(den * p) <= 2 * (den * (sig * p) - num * (c * p)) <= den * p,
        -(den * p) <= 2 * (den * (-(sig * p)) - (-num) * (c * p)) <= den * p,
{
    assert(den * (sig * p) - num * (c * p) == k * p) by (nonlinear_arith)
        requires
            den * sig - num * c == k,
    ;
    assert(den * (-(sig * p)) - (-num) * (c * p) == -(k * p)) by (nonlinear_arith)
        requires
            den * sig - num * c == k,
    ;
    assert(-(den * p) <= 2 * (k * p) <= den * p) by (nonlinear_arith)
        requires
            p > 0,
            -den <= 2 * k <= den,
    ;
}

/// The constant for the freezing point of water in degrees Fahrenheit is 32
/// exactly.
pub proof fn lemma_freezing_fahrenheit_is_32()
    ensures
        (Float { bits: FREEZING_FAHRENHEIT_BITS }).is_finite(),
        (Float { bits: FREEZING_FAHRENHEIT_BITS }).ticks() == 32 * ticks_per_unit(),
{
    lemma2_to64_rest();
    lemma_pow2_adds(47, 1027);
    let p = pow2(1027) as int;
    assert(HIDDEN_BIT * p == 32 * (pow2(47) * p)) by (nonlinear_arith)
        requires
            pow2(47) == 0x800000000000,
            HIDDEN_BIT == 0x0010_0000_0000_0000,
    ;
}

/// The constant for the number of degrees Fahrenheit in a degree Celsius is
/// the double nearest to 1.8.
pub proof fn lemma_fahrenheit_per_celsius_is_nearest_to_1_8()
    ensures
        (Float { bits: FAHRENHEIT_PER_CELSIUS_BITS }).nearest_to(18, 10),
{
    lemma2_to64_rest();
    lemma_pow2_adds(52, 1022);
    lemma_pow2_pos(1022);
    lemma_scaled_gap(8106479329266893, pow2(1022) as int, 18, 10, pow2(52) as int, 2);
    lemma_within_half_a_step_is_nearest(Float { bits: FAHRENHEIT_PER_CELSIUS_BITS }, 18, 10);
}

/// The constant for the freezing point of water in kelvins is the double
/// nearest to 273.15.
pub proof fn lemma_freezing_kelvin_is_nearest_to_273_15()
    ensures
        (Float { bits: FREEZING_KELVIN_BITS }).nearest_to(27315, 100),
{
    lemma2_to64_rest();
    lemma_pow2_adds(44, 1030);
    lemma_pow2_pos(1030);
    lemma_scaled_gap(4805305618032230, pow2(1030) as int, 27315, 100, pow2(44) as int, -40);
    lemma_within_half_a_step_is_nearest(Float { bits: FREEZING_KELVIN_BITS }, 27315, 100);
}

/// The constant for absolute zero in degrees Fahrenheit is the double
/// nearest to -459.67.
pub proof fn lemma_abs_zero_fahrenheit_is_nearest_to_minus_459_67()
    ensures
        (Float { bits: ABS_ZERO_FAHRENHEIT_BITS }).nearest_to(-45967, 100),
{
    lemma2_to64_rest();
    lemma_pow2_adds(44, 1030);
    lemma_pow2_pos(1030);
    lemma_scaled_gap(8086600159036703, pow2(1030) as int, 45967, 100, pow2(44) as int, 28);
    lemma_within_half_a_step_is_nearest(Float { bits: ABS_ZERO_FAHRENHEIT_BITS }, -45967, 100);
}

/// The constant for absolute zero in degrees Celsius is the double nearest
/// to -273.15.
pub proof fn lemma_abs_zero_celsius_is_nearest_to_minus_273_15()
    ensures
        (Float { bits: ABS_ZERO_CELSIUS_BITS }).nearest_to(-27315, 100),
{
    lemma2_to64_rest();
    lemma_pow2_adds(44, 1030);
    lemma_pow2_pos(1030);
    lemma_scaled_gap(4805305618032230, pow2(1030) as int, 27315, 100, pow2(44) as int, -40);
    lemma_within_half_a_step_is_nearest(Float { bits: ABS_ZERO_CELSIUS_BITS }, -27315, 100);
}

/// The constant for absolute zero in kelvins is 0 exactly.
pub proof fn lemma_abs_zero_kelvin_is_0()
    ensures
        (Float { bits: ABS_ZERO_KELVIN_BITS }).is_finite(),
        (Float { bits: ABS_ZERO_KELVIN_BITS }).ticks() == 0,
{
}

/// Absolute zero as a fraction: the numerator, over a denominator of 100.
pub open spec fn abs_zero_hundredths(unit: Unit) -> int {
    match unit {
        Unit::Fahrenheit => -45967,
        Unit::Celsius => -27315,
        Unit::Kelvin => 0,
    }
}

/// What is found to be below absolute zero is below it: a finite magnitude
/// that compares below the constant of its unit stands for a number below
/// -459.67, -273.15 or 0, and not only below the double that is nearest to
/// it.
pub proof fn lemma_below_abs_zero_is_below(t: Temperature)
    requires
        t.magnitude().is_finite(),
        t.below_abs_zero(),
    ensures
        100 * t.magnitude().ticks() < abs_zero_hundredths(t.unit()) * ticks_per_unit(),
{
    let m = t.magnitude();
    let zero = t.unit().abs_zero();
    lemma2_to64_rest();
    lemma_pow2_adds(44, 1030);
    lemma_pow2_pos(1030);
    let p = pow2(1030) as int;
    let c = pow2(44) as int;
    lemma_comparison_is_numeric(m, zero);
    match t.unit() {
        Unit::Fahrenheit => {
            // the constant is itself a little below -459.67
            lemma_scaled_gap(8086600159036703, p, 45967, 100, c, 28);
        },
        Unit::Celsius => {
            // the constant is a little above -273.15, by less than a step
            lemma_scaled_gap(4805305618032230, p, 27315, 100, c, -40);
            lemma_doubles_are_a_step_apart(zero, m);
            assert(zero.step() == p);
        },
        Unit::Kelvin => {},
    }
}

/// What is not found to be below absolute zero is not below the constant of
/// its unit, which is the double nearest to absolute zero: in degrees
/// Celsius and in kelvins it is then not below absolute zero itself.
pub proof fn lemma_not_below_abs_zero_is_not_below(t: Temperature)
    requires
        t.magnitude().is_finite(),
        !t.below_abs_zero(),
    ensures
        t.magnitude().ticks() >= t.unit().abs_zero().ticks(),
        t.unit() != Unit::Fahrenheit ==> 100 * t.magnitude().ticks() >= abs_zero_hundredths(
            t.unit(),
        ) * ticks_per_unit(),
{
    let m = t.magnitude();
    let zero = t.unit().abs_zero();
    lemma2_to64_rest();
    lemma_pow2_adds(44, 1030);
    lemma_pow2_pos(1030);
    let p = pow2(1030) as int;
    let c = pow2(44) as int;
    lemma_comparison_is_numeric(m, zero);
    if t.unit() == Unit::Celsius {
        lemma_scaled_gap(4805305618032230, p, 27315, 100, c, -40);
    }
}

} // verus!
