//! Laws of dual-number algebra, stated over the mathematical model and
//! proved once for all values.

use vstd::prelude::*;

use crate::dual::dual_numbers::DualView;
use crate::dual::dual_numbers::div_trunc;
use crate::dual::dual_numbers::dual_add;
use crate::dual::dual_numbers::dual_conjugate;
use crate::dual::dual_numbers::dual_div;
use crate::dual::dual_numbers::dual_mul;
use crate::dual::dual_numbers::dual_sub;
use crate::dual::functions::dual_ceil;
use crate::dual::functions::dual_floor;
use crate::dual::functions::dual_round;
use crate::dual::functions::dual_signum;
use crate::dual::functions::dual_trunc;

verus! {

/// Each of the four ring operations acts componentwise by its closed
/// formula: for all dual numbers `u` and `v`,
/// `u + v == (u.a + v.a, u.b + v.b)`,
/// `u - v == (u.a - v.a, u.b - v.b)`,
/// `u * v == (u.a * v.a, u.a * v.b + u.b * v.a)`, and
/// `u / v == (u.a / v.a, (u.b * v.a - u.a * v.b) / (v.a * v.a))`,
/// the divisions truncating toward zero.
pub proof fn lemma_ops_componentwise(u: DualView, v: DualView)
    ensures
        dual_add(u, v) == (DualView { a: u.a + v.a, b: u.b + v.b }),
        dual_sub(u, v) == (DualView { a: u.a - v.a, b: u.b - v.b }),
        dual_mul(u, v) == (DualView { a: u.a * v.a, b: u.a * v.b + u.b * v.a }),
        dual_div(u, v) == (DualView {
            a: div_trunc(u.a, v.a),
            b: div_trunc(u.b * v.a - u.a * v.b, v.a * v.a),
        }),
{
}

/// Linearity of the tangent: for a seed variable `x == (x0, 1)` and a
/// constant `c == (c0, 0)`, the sum `x + c` carries tangent `1` and the
/// product `x * c` carries tangent `c0`, whatever `x0` and `c0` are.
pub proof fn lemma_linearity(x0: int, c0: int)
    ensures
        dual_add((DualView { a: x0, b: 1 }), (DualView { a: c0, b: 0 })).b == 1,
        dual_mul((DualView { a: x0, b: 1 }), (DualView { a: c0, b: 0 })).b == c0,
{
}

/// Conjugation is an involution: conjugating twice gives back the dual
/// number it started from, for every `u`.
pub proof fn lemma_conjugate_involution(u: DualView)
    ensures
        dual_conjugate(dual_conjugate(u)) == u,
{
}

/// The rounding family — ceiling, floor, rounding, truncation and sign —
/// always yields tangent `0`, regardless of the input tangent.
pub proof fn lemma_rounding_family_tangent_zero(u: DualView)
    ensures
        dual_ceil(u).b == 0,
        dual_floor(u).b == 0,
        dual_round(u).b == 0,
        dual_trunc(u).b == 0,
        dual_signum(u).b == 0,
{
}

} // verus!
