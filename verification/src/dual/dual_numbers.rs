//! The pair type `Dual` and the four ring operations of dual-number algebra.

use vstd::prelude::*;

verus! {

/// A dual number `a + b*eps` with `eps * eps == 0`: the primal value `a`
/// together with the tangent `b`, the derivative accumulated alongside `a`
/// under the chain rule.
///
/// Any pair of scalars is a valid value; the tangent is meaningful when the
/// computation was seeded with `b == 1` on the one independent variable and
/// `b == 0` on every constant. Scalars must be lifted to `Dual` that way
/// before they can be combined with a dual number: no operation takes a bare
/// scalar operand.
#[derive(Clone, Copy, Debug, PartialEq, Eq, Structural)]
pub struct Dual<T> {
    pub a: T,
    pub b: T,
}

/// The mathematical model of a dual number: a pair of unbounded integers,
/// primal `a` and tangent `b`.
pub ghost struct DualView {
    pub a: int,
    pub b: int,
}

impl View for Dual<i64> {
    type V = DualView;

    open spec fn view(&self) -> DualView {
        DualView { a: self.a as int, b: self.b as int }
    }
}

/// Truncating integer division, rounding the quotient toward zero: the
/// division that the executable scalar `i64` performs (in spec code the bare
/// `/` on `int` is Euclidean division instead).
pub open spec fn div_trunc(x: int, d: int) -> int {
    if x == 0 {
        0
    } else if x > 0 && d > 0 {
        x / d
    } else if x < 0 && d < 0 {
        (x * -1) / (d * -1)
    } else if x < 0 {
        ((x * -1) / d) * -1
    } else {
        (x / (d * -1)) * -1
    }
}

/// `x` is representable in the executable scalar `i64`.
pub open spec fn in_i64(x: int) -> bool {
    i64::MIN <= x <= i64::MAX
}

/// Both components of `u` are representable in the executable scalar `i64`.
pub open spec fn dual_in_i64(u: DualView) -> bool {
    in_i64(u.a) && in_i64(u.b)
}

/// `(a1 + b1 eps) + (a2 + b2 eps) == (a1 + a2) + (b1 + b2) eps`.
pub open spec fn dual_add(u: DualView, v: DualView) -> DualView {
    DualView { a: u.a + v.a, b: u.b + v.b }
}

/// `(a1 + b1 eps) - (a2 + b2 eps) == (a1 - a2) + (b1 - b2) eps`.
pub open spec fn dual_sub(u: DualView, v: DualView) -> DualView {
    DualView { a: u.a - v.a, b: u.b - v.b }
}

/// `(a1 + b1 eps) * (a2 + b2 eps) == a1*a2 + (a1*b2 + b1*a2) eps`,
/// since the `eps * eps` term vanishes: the product rule.
pub open spec fn dual_mul(u: DualView, v: DualView) -> DualView {
    DualView { a: u.a * v.a, b: u.a * v.b + u.b * v.a }
}

/// `(a1 + b1 eps) / (a2 + b2 eps) == a1/a2 + (b1*a2 - a1*b2)/(a2*a2) eps`:
/// the quotient rule, with the scalar's truncating division.
pub open spec fn dual_div(u: DualView, v: DualView) -> DualView {
    DualView { a: div_trunc(u.a, v.a), b: div_trunc(u.b * v.a - u.a * v.b, v.a * v.a) }
}

/// The conjugate of `a + b eps` is `a - b eps`.
pub open spec fn dual_conjugate(u: DualView) -> DualView {
    DualView { a: u.a, b: -u.b }
}

/// The product of two scalars of `i64` lies between `i64::MIN * i64::MAX`
/// and `i64::MIN * i64::MIN`, so it always fits in `i128`.
pub proof fn lemma_i64_mul_bounds(x: int, y: int)
    requires
        in_i64(x),
        in_i64(y),
    ensures
        -0x3fff_ffff_ffff_ffff_8000_0000_0000_0000 <= x * y
            <= 0x4000_0000_0000_0000_0000_0000_0000_0000,
{
    assert(-0x3fff_ffff_ffff_ffff_8000_0000_0000_0000 <= x * y
        <= 0x4000_0000_0000_0000_0000_0000_0000_0000) by (nonlinear_arith)
        requires
            -0x8000_0000_0000_0000 <= x <= 0x7fff_ffff_ffff_ffff,
            -0x8000_0000_0000_0000 <= y <= 0x7fff_ffff_ffff_ffff,
    ;
}

impl<T> Dual<T> {
    /// Builds the dual number `a + b*eps` from the two given scalars, with
    /// no validation: any pair is accepted.
    pub fn new(a: T, b: T) -> (r: Self)
        ensures
            r.a == a,
            r.b == b,
    {
        Dual { a, b }
    }
}

impl Dual<i64> {
    /// Returns the conjugate `a - b*eps`.
    ///
    /// The one excluded input is the machine limit: negating `i64::MIN`
    /// overflows.
    pub fn conjugate(&self) -> (r: Self)
        requires
            self.b != i64::MIN,
        ensures
            r@ == dual_conjugate(self@),
    {
        Dual { a: self.a, b: -self.b }
    }

    /// Componentwise dual addition.
    ///
    /// Requires only the machine limit: the exact result must be
    /// representable in the scalar.
    pub fn add(self, other: Self) -> (r: Self)
        requires
            dual_in_i64(dual_add(self@, other@)),
        ensures
            r@ == dual_add(self@, other@),
    {
        Dual { a: self.a + other.a, b: self.b + other.b }
    }

    /// In-place form of `add`: replaces `self` with `self.add(other)`.
    pub fn add_assign(&mut self, other: Self)
        requires
            dual_in_i64(dual_add(old(self)@, other@)),
        ensures
            final(self)@ == dual_add(old(self)@, other@),
    {
        let s = *self;
        *self = s.add(other);
    }

    /// Componentwise dual subtraction.
    ///
    /// Requires only the machine limit: the exact result must be
    /// representable in the scalar.
    pub fn sub(self, other: Self) -> (r: Self)
        requires
            dual_in_i64(dual_sub(self@, other@)),
        ensures
            r@ == dual_sub(self@, other@),
    {
        Dual { a: self.a - other.a, b: self.b - other.b }
    }

    /// In-place form of `sub`: replaces `self` with `self.sub(other)`.
    pub fn sub_assign(&mut self, other: Self)
        requires
            dual_in_i64(dual_sub(old(self)@, other@)),
        ensures
            final(self)@ == dual_sub(old(self)@, other@),
    {
        let s = *self;
        *self = s.sub(other);
    }

    /// Dual multiplication: `(a1*a2) + (a1*b2 + b1*a2) eps`, the product
    /// rule applied to the tangents.
    ///
    /// Requires only the machine limit: both components of the exact result
    /// must be representable in the scalar. The intermediate products are
    /// carried in a wider integer, so they themselves are unconstrained.
    pub fn mul(self, other: Self) -> (r: Self)
        requires
            dual_in_i64(dual_mul(self@, other@)),
        ensures
            r@ == dual_mul(self@, other@),
    {
        let a1: i128 = self.a as i128;
        let b1: i128 = self.b as i128;
        let a2: i128 = other.a as i128;
        let b2: i128 = other.b as i128;
        proof {
            lemma_i64_mul_bounds(self.a as int, other.b as int);
            lemma_i64_mul_bounds(self.b as int, other.a as int);
        }
        let p1: i128 = a1 * b2;
        let p2: i128 = b1 * a2;
        Dual { a: (a1 * a2) as i64, b: (p1 + p2) as i64 }
    }

    /// In-place form of `mul`: replaces `self` with `self.mul(other)`.
    pub fn mul_assign(&mut self, other: Self)
        requires
            dual_in_i64(dual_mul(old(self)@, other@)),
        ensures
            final(self)@ == dual_mul(old(self)@, other@),
    {
        let s = *self;
        *self = s.mul(other);
    }

    /// Dual division: `(a1/a2) + ((b1*a2 - a1*b2)/(a2*a2)) eps`, the
    /// quotient rule, computed with the scalar's truncating division.
    ///
    /// The divisor's primal must not be zero (an integer scalar has no
    /// quiet sentinel to propagate), and the machine limit holds: both
    /// components of the exact result must be representable in the scalar.
    /// The intermediate products are carried in a wider integer.
    pub fn div(self, other: Self) -> (r: Self)
        requires
            other.a != 0,
            dual_in_i64(dual_div(self@, other@)),
        ensures
            r@ == dual_div(self@, other@),
    {
        let a1: i128 = self.a as i128;
        let b1: i128 = self.b as i128;
        let a2: i128 = other.a as i128;
        let b2: i128 = other.b as i128;
        proof {
            lemma_i64_mul_bounds(self.b as int, other.a as int);
            lemma_i64_mul_bounds(self.a as int, other.b as int);
            lemma_i64_mul_bounds(other.a as int, other.a as int);
            assert((other.a as int) * (other.a as int) > 0) by (nonlinear_arith)
                requires
                    other.a != 0,
            ;
        }
        let num: i128 = b1 * a2 - a1 * b2;
        let den: i128 = a2 * a2;
        let qa: i64 = self.a.checked_div(other.a).unwrap();
        let qb: i128 = num.checked_div(den).unwrap();
        Dual { a: qa, b: qb as i64 }
    }

    /// In-place form of `div`: replaces `self` with `self.div(other)`.
    pub fn div_assign(&mut self, other: Self)
        requires
            other.a != 0,
            dual_in_i64(dual_div(old(self)@, other@)),
        ensures
            final(self)@ == dual_div(old(self)@, other@),
    {
        let s = *self;
        *self = s.div(other);
    }
}

} // verus!
