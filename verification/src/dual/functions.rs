//! The part of the elementary-function catalog that is exact arithmetic on
//! the integer scalar.
//!
//! Every catalog entry lifts a scalar function `f` to dual numbers by the
//! chain rule: `f(a + b*eps) == f(a) + b * f'(a) * eps`. The entries here
//! (absolute value, sign, the rounding family, the fractional part, the
//! reciprocal, and the integer power) need nothing beyond the scalar's own
//! arithmetic, so each is verified against the exact formula. The
//! transcendental entries of the catalog exist only for floating-point
//! scalars and stand outside the verified library.

use vstd::prelude::*;

use vstd::arithmetic::power::pow;

use crate::dual::dual_numbers::Dual;
use crate::dual::dual_numbers::DualView;
use crate::dual::dual_numbers::div_trunc;
use crate::dual::dual_numbers::dual_in_i64;
use crate::dual::dual_numbers::in_i64;
use crate::dual::dual_numbers::lemma_i64_mul_bounds;

verus! {

/// The sign of `x`: `1`, `-1`, or `0` for `x == 0`.
pub open spec fn sgn(x: int) -> int {
    if x > 0 {
        1
    } else if x < 0 {
        -1
    } else {
        0
    }
}

/// `|a + b eps| == |a| + b*sgn(a) eps`; the slope of `|x|` at `0` is taken
/// to be `sgn(0) == 0`.
pub open spec fn dual_abs(u: DualView) -> DualView {
    DualView { a: if u.a >= 0 { u.a } else { -u.a }, b: u.b * sgn(u.a) }
}

/// `sgn(a + b eps) == sgn(a) + 0 eps`: a step function's derivative is
/// taken to be `0` everywhere.
pub open spec fn dual_signum(u: DualView) -> DualView {
    DualView { a: sgn(u.a), b: 0 }
}

/// `ceil(a + b eps) == ceil(a) + 0 eps`; an integer scalar is its own
/// ceiling, and the tangent of a step function is `0`.
pub open spec fn dual_ceil(u: DualView) -> DualView {
    DualView { a: u.a, b: 0 }
}

/// `floor(a + b eps) == floor(a) + 0 eps`; an integer scalar is its own
/// floor, and the tangent of a step function is `0`.
pub open spec fn dual_floor(u: DualView) -> DualView {
    DualView { a: u.a, b: 0 }
}

/// `round(a + b eps) == round(a) + 0 eps`; an integer scalar rounds to
/// itself, and the tangent of a step function is `0`.
pub open spec fn dual_round(u: DualView) -> DualView {
    DualView { a: u.a, b: 0 }
}

/// `trunc(a + b eps) == trunc(a) + 0 eps`; an integer scalar truncates to
/// itself, and the tangent of a step function is `0`.
pub open spec fn dual_trunc(u: DualView) -> DualView {
    DualView { a: u.a, b: 0 }
}

/// `frac(a + b eps) == frac(a) + b eps`: the fractional part has slope `1`
/// almost everywhere, and an integer scalar's fractional part is `0`.
pub open spec fn dual_frac(u: DualView) -> DualView {
    DualView { a: 0, b: u.b }
}

/// `1/(a + b eps) == 1/a - b/(a*a) eps`, with the scalar's truncating
/// division.
pub open spec fn dual_recip(u: DualView) -> DualView {
    DualView { a: div_trunc(1, u.a), b: div_trunc(-u.b, u.a * u.a) }
}

/// `(a + b eps)^n == a^n + b*n*a^(n-1) eps` for a fixed integer exponent
/// `n >= 1`: the power rule, with only the base carrying a derivative.
pub open spec fn dual_powi(u: DualView, n: nat) -> DualView
    recommends
        n >= 1,
{
    DualView { a: pow(u.a, n), b: u.b * n * pow(u.a, (n - 1) as nat) }
}

/// `max(1, |a^n|)`: a bound under which every partial power of `a` stays.
spec fn pow_cap(a: int, n: nat) -> int {
    if pow(a, n) < 0 {
        -pow(a, n)
    } else if pow(a, n) < 1 {
        1
    } else {
        pow(a, n)
    }
}

/// On the way up to `a^n`, no partial power `a^j` exceeds `max(1, |a^n|)`
/// in magnitude: once `|a| >= 1` the magnitudes only grow, and for
/// `a == 0` every power past the zeroth is `0`.
proof fn lemma_pow_partial_bound(a: int, j: nat, n: nat)
    requires
        j <= n,
    ensures
        -pow_cap(a, n) <= pow(a, j) <= pow_cap(a, n),
    decreases n - j,
{
    reveal(pow);
    if j == n {
        // The cap is at least |a^n| by its definition.
    } else {
        lemma_pow_partial_bound(a, j + 1, n);
        let p = pow(a, j);
        let q = pow(a, j + 1);
        let cap = pow_cap(a, n);
        assert(q == a * p);
        if a == 0 {
            if j != 0 {
                assert(p == a * pow(a, (j - 1) as nat));
            }
        } else {
            assert(-cap <= p <= cap) by (nonlinear_arith)
                requires
                    q == a * p,
                    a <= -1 || a >= 1,
                    -cap <= q <= cap,
                    cap >= 1,
            ;
        }
    }
}

impl Dual<i64> {
    /// Absolute value: `(|a|, b * sgn(a))`.
    ///
    /// Requires only the machine limit: both components of the exact result
    /// must be representable in the scalar (which excludes `a == i64::MIN`,
    /// whose absolute value overflows).
    pub fn abs(&self) -> (r: Self)
        requires
            dual_in_i64(dual_abs(self@)),
        ensures
            r@ == dual_abs(self@),
    {
        let aa: i64 = if self.a < 0 {
            -self.a
        } else {
            self.a
        };
        let bb: i64 = if self.a > 0 {
            self.b
        } else if self.a < 0 {
            -self.b
        } else {
            0
        };
        Dual { a: aa, b: bb }
    }

    /// Sign: `(sgn(a), 0)`.
    pub fn signum(&self) -> (r: Self)
        ensures
            r@ == dual_signum(self@),
    {
        let aa: i64 = if self.a > 0 {
            1
        } else if self.a < 0 {
            -1
        } else {
            0
        };
        Dual { a: aa, b: 0 }
    }

    /// Ceiling: `(ceil(a), 0)`. The tangent is `0` whatever the input
    /// tangent was.
    pub fn ceil(&self) -> (r: Self)
        ensures
            r@ == dual_ceil(self@),
    {
        Dual { a: self.a, b: 0 }
    }

    /// Floor: `(floor(a), 0)`. The tangent is `0` whatever the input
    /// tangent was.
    pub fn floor(&self) -> (r: Self)
        ensures
            r@ == dual_floor(self@),
    {
        Dual { a: self.a, b: 0 }
    }

    /// Rounding to the nearest integer: `(round(a), 0)`. The tangent is `0`
    /// whatever the input tangent was.
    pub fn round(&self) -> (r: Self)
        ensures
            r@ == dual_round(self@),
    {
        Dual { a: self.a, b: 0 }
    }

    /// Truncation: `(trunc(a), 0)`. The tangent is `0` whatever the input
    /// tangent was.
    pub fn trunc(&self) -> (r: Self)
        ensures
            r@ == dual_trunc(self@),
    {
        Dual { a: self.a, b: 0 }
    }

    /// Fractional part: `(frac(a), b)`.
    pub fn frac(&self) -> (r: Self)
        ensures
            r@ == dual_frac(self@),
    {
        Dual { a: 0, b: self.b }
    }

    /// Integer power: `(a^n, b * n * a^(n-1))`, the power rule for a fixed
    /// integer exponent `n >= 1`.
    ///
    /// Requires the machine limit: both components of the exact result must
    /// be representable in the scalar. The partial powers and the
    /// intermediate products are carried in a wider integer.
    pub fn powi(&self, n: i32) -> (r: Self)
        requires
            n >= 1,
            dual_in_i64(dual_powi(self@, n as nat)),
        ensures
            r@ == dual_powi(self@, n as nat),
    {
        let a1: i128 = self.a as i128;
        let b1: i128 = self.b as i128;
        let ghost ai: int = self.a as int;
        let ghost nn: nat = n as nat;
        let mut pw: i128 = 1;
        let mut k: i32 = 0;
        proof {
            reveal(pow);
            assert(pow(ai, 0) == 1);
        }
        while k < n - 1
            invariant
                1 <= n,
                0 <= k <= n - 1,
                nn == n as nat,
                a1 == ai,
                -0x8000_0000_0000_0000 <= ai <= 0x7fff_ffff_ffff_ffff,
                in_i64(pow(ai, nn)),
                pw == pow(ai, k as nat),
            decreases n - 1 - k,
        {
            proof {
                reveal(pow);
                lemma_pow_partial_bound(ai, (k + 1) as nat, nn);
                assert(pow(ai, (k + 1) as nat) == ai * pow(ai, k as nat));
            }
            pw = a1 * pw;
            k = k + 1;
        }
        proof {
            reveal(pow);
            assert(pow(ai, nn) == ai * pow(ai, (nn - 1) as nat));
            lemma_i64_mul_bounds(self.b as int, n as int);
        }
        let pa: i128 = a1 * pw;
        let bn: i128 = b1 * (n as i128);
        let pb: i128 = bn * pw;
        Dual { a: pa as i64, b: pb as i64 }
    }

    /// Reciprocal: `(1/a, -b/(a*a))`, with the scalar's truncating
    /// division.
    ///
    /// The primal must not be zero (an integer scalar has no quiet sentinel
    /// to propagate), and the machine limit holds: both components of the
    /// exact result must be representable in the scalar.
    pub fn recip(&self) -> (r: Self)
        requires
            self.a != 0,
            dual_in_i64(dual_recip(self@)),
        ensures
            r@ == dual_recip(self@),
    {
        proof {
            lemma_i64_mul_bounds(self.a as int, self.a as int);
            assert((self.a as int) * (self.a as int) > 0) by (nonlinear_arith)
                requires
                    self.a != 0,
            ;
        }
        let one: i64 = 1;
        let qa: i64 = one.checked_div(self.a).unwrap();
        let num: i128 = -(self.b as i128);
        let den: i128 = (self.a as i128) * (self.a as i128);
        let qb: i128 = num.checked_div(den).unwrap();
        Dual { a: qa, b: qb as i64 }
    }
}

} // verus!
