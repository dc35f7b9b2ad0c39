//! Single-precision numbers as bit patterns.
//!
//! Coordinates, angles, distances and thresholds travel through the matcher as
//! IEEE-754 binary32 patterns. The matcher never does arithmetic on them; it
//! only orders them, by their patterns taken as signed magnitudes. What a
//! pattern denotes is stated here as an integer, in units of the least
//! positive number, and the order of the signed magnitudes is shown to be the
//! order of the numbers.

use vstd::prelude::*;
use vstd::arithmetic::power2::{
    lemma2_to64, lemma_pow2_adds, lemma_pow2_pos, lemma_pow2_strictly_increases, pow2,
};

verus! {

/// The sign bit of a binary32 pattern.
pub const SIGN_BIT: u32 = 0x8000_0000;

/// The pattern of positive infinity. A larger magnitude is not a number.
pub const INFINITY_BITS: u32 = 0x7f80_0000;

/// The pattern of the number one.
pub const ONE_BITS: u32 = 0x3f80_0000;

/// The pattern of the number minus one.
pub const MINUS_ONE_BITS: u32 = 0xbf80_0000;

/// How many patterns share an exponent: two to the power of 23.
pub const FRACTION_SPAN: u32 = 0x80_0000;

/// A single-precision number, held as its IEEE-754 binary32 bit pattern.
///
/// `==` on two scalars compares patterns. Numeric comparison, under which the
/// two zeros are equal and a NaN is unordered, is [`Scalar::lt`] and
/// [`Scalar::le`].
#[derive(Clone, Copy, Debug, PartialEq, Eq, Hash, Structural)]
pub struct Scalar {
    pub bits: u32,
}

/// What a magnitude denotes, in units of two to the power of -149: the
/// fraction itself while the exponent is zero, and from there on the
/// fraction with its leading one, doubled with each step of the exponent.
#[verifier::opaque]
pub open spec fn size_of(magnitude: int) -> int {
    let exponent = magnitude / (FRACTION_SPAN as int);
    let fraction = magnitude % (FRACTION_SPAN as int);
    if exponent == 0 {
        fraction
    } else {
        (FRACTION_SPAN + fraction) * pow2((exponent - 1) as nat)
    }
}

impl Scalar {
    /// The pattern with its sign bit cleared, as a number.
    pub open spec fn magnitude(self) -> int {
        if self.bits >= SIGN_BIT {
            self.bits - SIGN_BIT
        } else {
            self.bits as int
        }
    }

    /// Whether the sign bit is set.
    pub open spec fn negative(self) -> bool {
        self.bits >= SIGN_BIT
    }

    /// Whether the pattern is a NaN.
    pub open spec fn nan(self) -> bool {
        self.magnitude() > INFINITY_BITS
    }

    /// The number that the pattern denotes, in units of the least positive
    /// number, two to the power of -149. Both zeros have the value 0. An
    /// infinity has the value that its pattern would denote were its exponent
    /// not the last one, which lies beyond every finite number. The value of
    /// a NaN means nothing.
    pub open spec fn value(self) -> int {
        if self.negative() {
            -size_of(self.magnitude())
        } else {
            size_of(self.magnitude())
        }
    }

    /// The pattern as a signed magnitude. Two patterns that are no NaN are
    /// ordered by their ranks as the numbers are that they denote.
    pub open spec fn rank(self) -> int {
        if self.negative() {
            -self.magnitude()
        } else {
            self.magnitude()
        }
    }

    /// Numeric `<`: false as soon as either side is a NaN.
    pub open spec fn lt_spec(self, other: Scalar) -> bool {
        !self.nan() && !other.nan() && self.rank() < other.rank()
    }

    /// Numeric `<=`: false as soon as either side is a NaN.
    pub open spec fn le_spec(self, other: Scalar) -> bool {
        !self.nan() && !other.nan() && self.rank() <= other.rank()
    }

    /// The absolute value: the same pattern with the sign bit cleared.
    pub open spec fn abs_spec(self) -> Scalar {
        Scalar { bits: self.magnitude() as u32 }
    }

    /// Whether the number lies in the closed interval from zero to one.
    pub open spec fn in_unit_interval_spec(self) -> bool {
        !self.nan() && 0 <= self.rank() <= ONE_BITS
    }

    /// Whether the pattern is that of a number above zero.
    pub open spec fn positive(self) -> bool {
        !self.nan() && self.rank() > 0
    }

    /// The number zero, with a clear sign bit.
    pub fn zero() -> (r: Scalar)
        ensures
            r.bits == 0,
    {
        Scalar { bits: 0 }
    }

    /// The number one.
    pub fn one() -> (r: Scalar)
        ensures
            r.bits == ONE_BITS,
    {
        Scalar { bits: ONE_BITS }
    }

    /// The number minus one.
    pub fn minus_one() -> (r: Scalar)
        ensures
            r.bits == MINUS_ONE_BITS,
    {
        Scalar { bits: MINUS_ONE_BITS }
    }

    /// The scalar with the given bit pattern.
    pub fn from_bits(bits: u32) -> (r: Scalar)
        ensures
            r.bits == bits,
    {
        Scalar { bits }
    }

    /// The bit pattern.
    pub fn to_bits(self) -> (r: u32)
        ensures
            r == self.bits,
    {
        self.bits
    }

    fn magnitude_bits(self) -> (r: u32)
        ensures
            r == self.magnitude(),
    {
        if self.bits >= SIGN_BIT {
            self.bits - SIGN_BIT
        } else {
            self.bits
        }
    }

    fn rank_value(self) -> (r: i64)
        ensures
            r == self.rank(),
    {
        let m: i64 = self.magnitude_bits() as i64;
        if self.bits >= SIGN_BIT {
            -m
        } else {
            m
        }
    }

    /// Whether the pattern is a NaN.
    pub fn is_nan(self) -> (r: bool)
        ensures
            r == self.nan(),
    {
        self.magnitude_bits() > INFINITY_BITS
    }

    /// The absolute value.
    pub fn abs(self) -> (r: Scalar)
        ensures
            r == self.abs_spec(),
    {
        Scalar { bits: self.magnitude_bits() }
    }

    /// Numeric `<`.
    pub fn lt(self, other: Scalar) -> (r: bool)
        ensures
            r == self.lt_spec(other),
    {
        !self.is_nan() && !other.is_nan() && self.rank_value() < other.rank_value()
    }

    /// Numeric `<=`.
    pub fn le(self, other: Scalar) -> (r: bool)
        ensures
            r == self.le_spec(other),
    {
        !self.is_nan() && !other.is_nan() && self.rank_value() <= other.rank_value()
    }

    /// Whether the number lies in the closed interval from zero to one.
    pub fn in_unit_interval(self) -> (r: bool)
        ensures
            r == self.in_unit_interval_spec(),
    {
        let rank = self.rank_value();
        !self.is_nan() && 0 <= rank && rank <= 0x3f80_0000
    }

    /// Whether the number is above zero.
    pub fn is_positive(self) -> (r: bool)
        ensures
            r == self.positive(),
    {
        !self.is_nan() && self.rank_value() > 0
    }
}

/// Between which powers of two the value of a magnitude lies: below two to
/// the power of 23 while the exponent is zero, and from there on within the
/// binade of its exponent.
proof fn lemma_size_bounds(magnitude: int)
    requires
        0 <= magnitude < SIGN_BIT,
    ensures
        magnitude / (FRACTION_SPAN as int) == 0 ==> 0 <= size_of(magnitude) < pow2(23),
        magnitude / (FRACTION_SPAN as int) > 0 ==> pow2(
            (magnitude / (FRACTION_SPAN as int) + 22) as nat,
        ) <= size_of(magnitude) < pow2((magnitude / (FRACTION_SPAN as int) + 23) as nat),
{
    let exponent = magnitude / (FRACTION_SPAN as int);
    let fraction = magnitude % (FRACTION_SPAN as int);
    reveal(size_of);
    lemma2_to64();
    if exponent > 0 {
        let step = pow2((exponent - 1) as nat) as int;
        lemma_pow2_pos((exponent - 1) as nat);
        lemma_pow2_adds(23, (exponent - 1) as nat);
        lemma_pow2_adds(24, (exponent - 1) as nat);
        assert(pow2((exponent + 22) as nat) == 0x80_0000 * step);
        assert(pow2((exponent + 23) as nat) == 0x100_0000 * step);
        assert(0x80_0000 * step <= (0x80_0000 + fraction) * step < 0x100_0000 * step)
            by (nonlinear_arith)
            requires
                0 <= fraction < 0x80_0000,
                step > 0,
        ;
    }
}

/// A greater magnitude denotes a greater value.
proof fn lemma_size_grows(less: int, more: int)
    requires
        0 <= less <= more < SIGN_BIT,
    ensures
        size_of(less) <= size_of(more),
        less < more ==> size_of(less) < size_of(more),
        size_of(0) == 0,
{
    let e1 = less / (FRACTION_SPAN as int);
    let f1 = less % (FRACTION_SPAN as int);
    let e2 = more / (FRACTION_SPAN as int);
    let f2 = more % (FRACTION_SPAN as int);
    reveal(size_of);
    lemma_size_bounds(less);
    lemma_size_bounds(more);
    lemma2_to64();
    if less < more {
        if e1 == e2 {
            if e1 > 0 {
                let step = pow2((e1 - 1) as nat) as int;
                lemma_pow2_pos((e1 - 1) as nat);
                assert((0x80_0000 + f1) * step < (0x80_0000 + f2) * step) by (nonlinear_arith)
                    requires
                        f1 < f2,
                        step > 0,
                ;
            }
        } else {
            assert(e1 < e2);
            if e1 + 23 < e2 + 22 {
                lemma_pow2_strictly_increases((e1 + 23) as nat, (e2 + 22) as nat);
            }
        }
    }
}

/// Two patterns are ordered by their ranks as the numbers are that they
/// denote: the signed magnitude of a pattern grows with its value, two
/// patterns of one value have one rank, and a rank has the sign of the value.
pub proof fn lemma_rank_orders_values(a: Scalar, b: Scalar)
    ensures
        a.rank() < b.rank() <==> a.value() < b.value(),
        a.rank() == b.rank() <==> a.value() == b.value(),
        a.rank() <= b.rank() <==> a.value() <= b.value(),
        a.rank() < 0 <==> a.value() < 0,
        a.rank() == 0 <==> a.value() == 0,
{
    let m = a.magnitude();
    let n = b.magnitude();
    if m <= n {
        lemma_size_grows(m, n);
    } else {
        lemma_size_grows(n, m);
    }
    lemma_size_grows(0, m);
    lemma_size_grows(0, n);
}

/// The comparisons are those of the numbers: what is said of ranks holds of
/// the values that the patterns denote.
pub proof fn lemma_comparisons_are_numeric(a: Scalar, b: Scalar)
    ensures
        a.lt_spec(b) <==> !a.nan() && !b.nan() && a.value() < b.value(),
        a.le_spec(b) <==> !a.nan() && !b.nan() && a.value() <= b.value(),
        a.positive() <==> !a.nan() && a.value() > 0,
        a.in_unit_interval_spec() <==> !a.nan() && 0 <= a.value() <= (Scalar {
            bits: ONE_BITS,
        }).value(),
        a.abs_spec().nan() == a.nan(),
        a.abs_spec().value() == if a.value() < 0 {
            -a.value()
        } else {
            a.value()
        },
{
    lemma_rank_orders_values(a, b);
    lemma_rank_orders_values(a, Scalar { bits: ONE_BITS });
    lemma_rank_orders_values(a.abs_spec(), a);
}

/// The values of some patterns: zero of either sign is 0, the least positive
/// pattern is the unit, and one is two to the power of 149 units.
pub proof fn lemma_notable_values()
    ensures
        (Scalar { bits: 0 }).value() == 0,
        (Scalar { bits: SIGN_BIT }).value() == 0,
        (Scalar { bits: 1 }).value() == 1,
        (Scalar { bits: ONE_BITS }).value() == pow2(149),
        (Scalar { bits: MINUS_ONE_BITS }).value() == -pow2(149),
{
    reveal(size_of);
    lemma2_to64();
    lemma_pow2_adds(23, 126);
    assert(0x3f80_0000int / 0x80_0000 == 127);
    assert(0x3f80_0000int % 0x80_0000 == 0);
}

} // verus!
