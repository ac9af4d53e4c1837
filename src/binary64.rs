use vstd::arithmetic::power2::*;
use vstd::prelude::*;

verus! {

/// A stored number, held as the bit pattern of an IEEE-754 binary64 value:
/// one sign bit, an 11-bit biased exponent and a 52-bit fraction.
#[derive(Clone, Copy, Debug, PartialEq, Eq, Structural)]
pub struct Binary64 {
    pub bits: u64,
}

/// `v` limited to the closed range `[lo, hi]`.
pub open spec fn clamp(v: int, lo: int, hi: int) -> int {
    if v < lo {
        lo
    } else if v > hi {
        hi
    } else {
        v
    }
}

impl Binary64 {
    pub open spec fn sign_negative(self) -> bool {
        self.bits >= 0x8000_0000_0000_0000
    }

    pub open spec fn exponent(self) -> nat {
        ((self.bits / 0x10_0000_0000_0000) % 0x800) as nat
    }

    pub open spec fn fraction(self) -> nat {
        (self.bits % 0x10_0000_0000_0000) as nat
    }

    /// Neither an infinity nor a NaN: the exponent is not all ones.
    pub open spec fn finite(self) -> bool {
        self.exponent() != 0x7ff
    }

    pub open spec fn nan(self) -> bool {
        self.exponent() == 0x7ff && self.fraction() != 0
    }

    pub open spec fn zero(self) -> bool {
        self.exponent() == 0 && self.fraction() == 0
    }

    /// Strictly greater than zero (positive infinity included, NaN not).
    pub open spec fn positive(self) -> bool {
        !self.sign_negative() && !self.zero() && !self.nan()
    }

    /// For a finite value, `|value| == significand * 2^scale`.
    pub open spec fn significand(self) -> nat {
        if self.exponent() == 0 {
            self.fraction()
        } else {
            self.fraction() + pow2(52)
        }
    }

    pub open spec fn scale(self) -> int {
        (if self.exponent() == 0 {
            1
        } else {
            self.exponent() as int
        }) - 1075
    }

    /// `floor(|value| + 1/2)`: the magnitude rounded to the nearest integer,
    /// halfway cases away from zero.
    pub open spec fn rounded_magnitude(self) -> nat {
        if self.scale() >= 0 {
            self.significand() * pow2(self.scale() as nat)
        } else {
            (self.significand() + pow2((-self.scale() - 1) as nat)) / pow2(
                (-self.scale()) as nat,
            )
        }
    }

    /// The finite value rounded to the nearest integer, halfway cases away from zero.
    pub open spec fn rounded(self) -> int {
        if self.sign_negative() {
            -(self.rounded_magnitude() as int)
        } else {
            self.rounded_magnitude() as int
        }
    }

    pub fn is_finite(&self) -> (r: bool)
        ensures
            r == self.finite(),
    {
        (self.bits / 0x10_0000_0000_0000) % 0x800 != 0x7ff
    }

    pub fn is_positive(&self) -> (r: bool)
        ensures
            r == self.positive(),
    {
        let exponent: u64 = (self.bits / 0x10_0000_0000_0000) % 0x800;
        let fraction: u64 = self.bits % 0x10_0000_0000_0000;
        let negative = self.bits >= 0x8000_0000_0000_0000;
        let zero = exponent == 0 && fraction == 0;
        let nan = exponent == 0x7ff && fraction != 0;
        !negative && !zero && !nan
    }

    /// The rounded magnitude, capped at 2^52 (every value from 2^52 up is
    /// already an integer, and far beyond any 32-bit pixel count).
    fn capped_rounded_magnitude(&self) -> (r: u64)
        requires
            self.finite(),
        ensures
            r as int == clamp(self.rounded_magnitude() as int, 0, 0x10_0000_0000_0000),
    {
        proof {
            lemma2_to64();
            lemma2_to64_rest();
        }
        let exponent: u64 = (self.bits / 0x10_0000_0000_0000) % 0x800;
        let fraction: u64 = self.bits % 0x10_0000_0000_0000;
        let significand: u64 = if exponent == 0 {
            fraction
        } else {
            fraction + 0x10_0000_0000_0000
        };
        assert(significand as int == self.significand());
        if exponent >= 1075 {
            proof {
                let e = self.scale() as nat;
                lemma_pow2_pos(e);
                assert(self.significand() * pow2(e) >= self.significand()) by (nonlinear_arith)
                    requires
                        pow2(e) > 0,
                ;
            }
            return 0x10_0000_0000_0000;
        }
        let biased: u64 = if exponent == 0 {
            1
        } else {
            exponent
        };
        let shift: u64 = 1075 - biased;
        proof {
            let s = shift as nat;
            assert(s == -self.scale());
            lemma_pow2_unfold(s);
        }
        if shift > 53 {
            proof {
                let s = shift as nat;
                if s - 1 > 53 {
                    lemma_pow2_strictly_increases(53, (s - 1) as nat);
                }
                let half = pow2((s - 1) as nat);
                let whole = pow2(s);
                assert(significand + half < whole);
                vstd::arithmetic::div_mod::lemma_basic_div(
                    (significand + half) as int,
                    whole as int,
                );
            }
            return 0;
        }
        let mut whole: u64 = 1;
        let mut i: u64 = 0;
        while i < shift
            invariant
                i <= shift,
                shift <= 53,
                whole == pow2(i as nat),
            decreases shift - i,
        {
            proof {
                lemma_pow2_unfold((i + 1) as nat);
                if i + 1 < 53 {
                    lemma_pow2_strictly_increases((i + 1) as nat, 53);
                }
                lemma2_to64_rest();
            }
            whole = whole * 2;
            i = i + 1;
        }
        let half: u64 = whole / 2;
        let r: u64 = (significand + half) / whole;
        proof {
            let s = shift as nat;
            assert(half == pow2((s - 1) as nat));
            assert(r as int == self.rounded_magnitude());
            assert((significand + half) < whole * (0x10_0000_0000_0000 + 1)) by (nonlinear_arith)
                requires
                    whole >= 2,
                    half * 2 == whole,
                    significand < 0x20_0000_0000_0000,
            ;
            vstd::arithmetic::div_mod::lemma_div_is_ordered(
                (significand + half) as int,
                (whole * (0x10_0000_0000_0000 + 1) - 1) as int,
                whole as int,
            );
            assert(((whole * (0x10_0000_0000_0000 + 1) - 1) as int) / (whole as int)
                <= 0x10_0000_0000_0000) by (nonlinear_arith)
                requires
                    whole >= 2,
            ;
        }
        r
    }

    /// The value as a physical pixel extent: rounded, then limited to `u32`
    /// (negative values give 0).
    pub fn round_to_u32(&self) -> (r: u32)
        requires
            self.finite(),
        ensures
            r as int == clamp(self.rounded(), 0, u32::MAX as int),
    {
        let magnitude = self.capped_rounded_magnitude();
        if self.bits >= 0x8000_0000_0000_0000 {
            0
        } else if magnitude > u32::MAX as u64 {
            u32::MAX
        } else {
            magnitude as u32
        }
    }

    /// The value as a physical pixel coordinate: rounded, then limited to `i32`.
    pub fn round_to_i32(&self) -> (r: i32)
        requires
            self.finite(),
        ensures
            r as int == clamp(self.rounded(), i32::MIN as int, i32::MAX as int),
    {
        let magnitude = self.capped_rounded_magnitude();
        if self.bits >= 0x8000_0000_0000_0000 {
            if magnitude >= 0x8000_0000 {
                i32::MIN
            } else {
                -(magnitude as i32)
            }
        } else if magnitude > i32::MAX as u64 {
            i32::MAX
        } else {
            magnitude as i32
        }
    }
}

/// The rounded magnitude is the integer nearest to the magnitude, halfway
/// cases going away from zero: with `|value| == m / d`,
/// `|value| - 1/2 < rounded_magnitude <= |value| + 1/2`.
/// Values with a non-negative scale are integers already and stay as they are.
pub proof fn lemma_rounded_is_nearest(b: Binary64)
    requires
        b.finite(),
    ensures
        b.scale() >= 0 ==> b.rounded_magnitude() == b.significand() * pow2(b.scale() as nat),
        b.scale() < 0 ==> {
            let d = pow2((-b.scale()) as nat) as int;
            let m = b.significand() as int;
            &&& 2 * b.rounded_magnitude() * d <= 2 * m + d
            &&& 2 * m + d < 2 * (b.rounded_magnitude() + 1) * d
        },
{
    if b.scale() < 0 {
        let s = (-b.scale()) as nat;
        let d = pow2(s) as int;
        let half = pow2((s - 1) as nat) as int;
        lemma_pow2_unfold(s);
        lemma_pow2_pos(s);
        let n = b.significand() as int + half;
        let q = n / d;
        vstd::arithmetic::div_mod::lemma_fundamental_div_mod(n, d);
        vstd::arithmetic::div_mod::lemma_mod_bound(n, d);
        assert(q == b.rounded_magnitude());
        assert(2 * q * d <= 2 * n && 2 * n < 2 * (q + 1) * d) by (nonlinear_arith)
            requires
                n == d * q + n % d,
                0 <= n % d < d,
        ;
    }
}

} // verus!
