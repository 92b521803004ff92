//! Double-precision numbers, carried and compared without floating-point arithmetic.

use vstd::arithmetic::power2::{lemma2_to64, lemma2_to64_rest, pow2};
use vstd::prelude::*;

verus! {

/// A double-precision number, held as its IEEE 754 bit pattern.
#[derive(Debug, Clone, Copy, PartialEq, Eq, Structural)]
pub struct Double {
    pub bits: u64,
}

/// The bit pattern of positive infinity.
pub const INFINITY_BITS: u64 = 0x7ff0_0000_0000_0000;

/// The sign bit.
pub const SIGN_BIT: u64 = 0x8000_0000_0000_0000;

impl Double {
    /// The pattern without its sign.
    pub open spec fn magnitude(self) -> int {
        if self.bits >= SIGN_BIT {
            self.bits - SIGN_BIT
        } else {
            self.bits as int
        }
    }

    pub open spec fn is_nan_spec(self) -> bool {
        self.magnitude() > INFINITY_BITS
    }

    /// An integer by which doubles other than NaN are ordered as their values are: the patterns
    /// of positive doubles rise with the value, and a sign turns the order round.
    pub open spec fn rank(self) -> int {
        if self.bits >= SIGN_BIT {
            -self.magnitude()
        } else {
            self.magnitude()
        }
    }

    /// Whether the number is greater than zero.
    pub open spec fn positive(self) -> bool {
        !self.is_nan_spec() && self.rank() > 0
    }

    /// The number 1.
    pub open spec fn one_spec() -> Double {
        Double { bits: 0x3ff0_0000_0000_0000 }
    }

    /// The number 1.
    pub fn one() -> (r: Double)
        ensures
            r == Double::one_spec(),
    {
        Double { bits: 0x3ff0_0000_0000_0000 }
    }

    /// Whether the number is the natural number `n`, by what a bit pattern stands for: the number
    /// whose significand is the lowest 52 bits behind a leading 1, times a power of two by the bits
    /// above them. All bits are 0 in the number 0.
    pub open spec fn is_natural(self, n: nat) -> bool {
        let e = self.bits as int / 0x10_0000_0000_0000 - 1023;
        let significand = 0x10_0000_0000_0000 + self.bits as int % 0x10_0000_0000_0000;
        if n == 0 {
            self.bits == 0
        } else {
            0 <= e <= 52 && significand == n * pow2((52 - e) as nat)
        }
    }

    /// The number `n`, where `low` is the greatest power of two that is not greater, `bits` the
    /// pattern of `low`, and `unit` what the pattern rises by from one integer to the next.
    pub open spec fn above(n: u8, low: u8, bits: u64, unit: u64) -> Double {
        Double { bits: (bits + (n - low) * unit) as u64 }
    }

    /// A small natural number.
    pub open spec fn natural(n: u8) -> Double {
        if n == 0 {
            Double { bits: 0 }
        } else if n < 2 {
            Double::above(n, 1, 0x3ff0_0000_0000_0000, 0x10_0000_0000_0000)
        } else if n < 4 {
            Double::above(n, 2, 0x4000_0000_0000_0000, 0x8_0000_0000_0000)
        } else if n < 8 {
            Double::above(n, 4, 0x4010_0000_0000_0000, 0x4_0000_0000_0000)
        } else if n < 16 {
            Double::above(n, 8, 0x4020_0000_0000_0000, 0x2_0000_0000_0000)
        } else if n < 32 {
            Double::above(n, 16, 0x4030_0000_0000_0000, 0x1_0000_0000_0000)
        } else if n < 64 {
            Double::above(n, 32, 0x4040_0000_0000_0000, 0x8000_0000_0000)
        } else if n < 128 {
            Double::above(n, 64, 0x4050_0000_0000_0000, 0x4000_0000_0000)
        } else {
            Double::above(n, 128, 0x4060_0000_0000_0000, 0x2000_0000_0000)
        }
    }

    /// A small natural number.
    pub fn from_natural(n: u8) -> (r: Double)
        ensures
            r == Double::natural(n),
            r.is_natural(n as nat),
    {
        let (low, bits, unit): (u8, u64, u64) = if n == 0 {
            (0, 0, 0)
        } else if n < 2 {
            (1, 0x3ff0_0000_0000_0000, 0x10_0000_0000_0000)
        } else if n < 4 {
            (2, 0x4000_0000_0000_0000, 0x8_0000_0000_0000)
        } else if n < 8 {
            (4, 0x4010_0000_0000_0000, 0x4_0000_0000_0000)
        } else if n < 16 {
            (8, 0x4020_0000_0000_0000, 0x2_0000_0000_0000)
        } else if n < 32 {
            (16, 0x4030_0000_0000_0000, 0x1_0000_0000_0000)
        } else if n < 64 {
            (32, 0x4040_0000_0000_0000, 0x8000_0000_0000)
        } else if n < 128 {
            (64, 0x4050_0000_0000_0000, 0x4000_0000_0000)
        } else {
            (128, 0x4060_0000_0000_0000, 0x2000_0000_0000)
        };
        proof {
            lemma_natural(n);
        }
        assert((n - low) * unit <= 127 * 0x10_0000_0000_0000) by (nonlinear_arith)
            requires
                0 <= n - low <= 127,
                0 <= unit <= 0x10_0000_0000_0000,
        ;
        let steps: u64 = (n - low) as u64;
        Double { bits: bits + steps * unit }
    }

    /// Whether the number is greater than zero.
    pub fn is_positive(&self) -> (r: bool)
        ensures
            r == self.positive(),
    {
        0 < self.bits && self.bits <= INFINITY_BITS
    }

    /// The number limited to 1 to 10 and rounded to an integer, a half away from zero. Each
    /// pattern is that of the half below the integer in its branch: 1.5, 2.5, and so on. What is
    /// not a number becomes 0.
    pub open spec fn points(self) -> u8 {
        let rank = self.rank();
        if self.is_nan_spec() {
            0
        } else if rank < 0x3ff8_0000_0000_0000 {
            1
        } else if rank < 0x4004_0000_0000_0000 {
            2
        } else if rank < 0x400c_0000_0000_0000 {
            3
        } else if rank < 0x4012_0000_0000_0000 {
            4
        } else if rank < 0x4016_0000_0000_0000 {
            5
        } else if rank < 0x401a_0000_0000_0000 {
            6
        } else if rank < 0x401e_0000_0000_0000 {
            7
        } else if rank < 0x4021_0000_0000_0000 {
            8
        } else if rank < 0x4023_0000_0000_0000 {
            9
        } else {
            10
        }
    }

    /// The number limited to 1 to 10 and rounded to an integer, a half away from zero.
    pub fn to_points(&self) -> (r: u8)
        ensures
            r == self.points(),
            self.is_nan_spec() || 1 <= r <= 10,
    {
        let b: u64 = self.bits;
        if b >= SIGN_BIT {
            if b - SIGN_BIT > INFINITY_BITS {
                0
            } else {
                1
            }
        } else if b > INFINITY_BITS {
            0
        } else if b < 0x3ff8_0000_0000_0000 {
            1
        } else if b < 0x4004_0000_0000_0000 {
            2
        } else if b < 0x400c_0000_0000_0000 {
            3
        } else if b < 0x4012_0000_0000_0000 {
            4
        } else if b < 0x4016_0000_0000_0000 {
            5
        } else if b < 0x401a_0000_0000_0000 {
            6
        } else if b < 0x401e_0000_0000_0000 {
            7
        } else if b < 0x4021_0000_0000_0000 {
            8
        } else if b < 0x4023_0000_0000_0000 {
            9
        } else {
            10
        }
    }
}

proof fn lemma_units()
    ensures
        pow2(52) == 0x10_0000_0000_0000,
        pow2(51) == 0x8_0000_0000_0000,
        pow2(50) == 0x4_0000_0000_0000,
        pow2(49) == 0x2_0000_0000_0000,
        pow2(48) == 0x1_0000_0000_0000,
        pow2(47) == 0x8000_0000_0000,
        pow2(46) == 0x4000_0000_0000,
        pow2(45) == 0x2000_0000_0000,
{
    lemma2_to64();
    lemma2_to64_rest();
}

proof fn lemma_above(n: u8, low: u8, bits: u64, unit: u64, e: int)
    requires
        0 <= e <= 7,
        bits == (1023 + e) * 0x10_0000_0000_0000,
        unit == pow2((52 - e) as nat),
        low * unit == 0x10_0000_0000_0000,
        low <= n < 2 * low,
    ensures
        Double::above(n, low, bits, unit).is_natural(n as nat),
{
    let d = (n - low) * unit;
    assert(0 <= d < 0x10_0000_0000_0000) by (nonlinear_arith)
        requires
            d == (n - low) * unit,
            0 <= n - low < low,
            low * unit == 0x10_0000_0000_0000,
            unit >= 0,
    ;
    assert(low * unit + d == n * unit) by (nonlinear_arith)
        requires
            d == (n - low) * unit,
    ;
}

/// A natural number has the pattern that stands for it.
pub proof fn lemma_natural(n: u8)
    ensures
        Double::natural(n).is_natural(n as nat),
{
    lemma_units();
    if n == 0 {
    } else if n < 2 {
        lemma_above(n, 1, 0x3ff0_0000_0000_0000, 0x10_0000_0000_0000, 0);
    } else if n < 4 {
        lemma_above(n, 2, 0x4000_0000_0000_0000, 0x8_0000_0000_0000, 1);
    } else if n < 8 {
        lemma_above(n, 4, 0x4010_0000_0000_0000, 0x4_0000_0000_0000, 2);
    } else if n < 16 {
        lemma_above(n, 8, 0x4020_0000_0000_0000, 0x2_0000_0000_0000, 3);
    } else if n < 32 {
        lemma_above(n, 16, 0x4030_0000_0000_0000, 0x1_0000_0000_0000, 4);
    } else if n < 64 {
        lemma_above(n, 32, 0x4040_0000_0000_0000, 0x8000_0000_0000, 5);
    } else if n < 128 {
        lemma_above(n, 64, 0x4050_0000_0000_0000, 0x4000_0000_0000, 6);
    } else {
        lemma_above(n, 128, 0x4060_0000_0000_0000, 0x2000_0000_0000, 7);
    }
}

/// A rating of 1 to 10 that was read off Trakt is sent to it as the same points.
pub proof fn lemma_points_round_trip(n: u8)
    requires
        1 <= n <= 10,
    ensures
        Double::natural(n).points() == n,
{
    assert(n == 1 || n == 2 || n == 3 || n == 4 || n == 5 || n == 6 || n == 7 || n == 8 || n == 9
        || n == 10);
}

/// A higher rating is never sent as fewer points.
pub proof fn lemma_points_rise(a: Double, b: Double)
    requires
        !a.is_nan_spec(),
        !b.is_nan_spec(),
        a.rank() <= b.rank(),
    ensures
        a.points() <= b.points(),
{
}

/// The patterns of numbers greater than zero are those from the least above that of zero to that of
/// infinity. Each natural number but zero is one of them.
pub proof fn lemma_positive_patterns(d: Double, n: u8)
    ensures
        d.positive() <==> 0 < d.bits <= 0x7ff0_0000_0000_0000,
        Double::natural(n).positive() <==> n > 0,
        Double::one_spec().is_natural(1),
{
    lemma_natural(n);
    lemma_natural(1);
    lemma_units();
}

/// A rating is sent as the nearest of the points from 1 to 10: what lies below the middle between
/// two of them as the lower one at most, and what does not as the higher one at least. Between two
/// neighbours the patterns rise evenly, so that the middle has the pattern halfway. What is not a
/// number is sent as 0.
pub proof fn lemma_nearest_points(d: Double, n: u8)
    requires
        1 <= n < 10,
    ensures
        d.is_nan_spec() <==> d.points() == 0,
        !d.is_nan_spec() ==> 1 <= d.points() <= 10,
        !d.is_nan_spec() ==> (d.points() <= n <==> d.rank() < (Double::natural(n).bits
            + Double::natural((n + 1) as u8).bits) / 2),
{
    assert(n == 1 || n == 2 || n == 3 || n == 4 || n == 5 || n == 6 || n == 7 || n == 8 || n == 9);
}

} // verus!
