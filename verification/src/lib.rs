//! Dual-number arithmetic for forward-mode automatic differentiation.
//!
//! A dual number is a pair `a + b*eps` with `eps * eps == 0`. Carrying the
//! tangent `b` alongside the primal `a` through every elementary operation
//! computes the derivative of a scalar computation with respect to one
//! designated variable: seed that variable as `(x0, 1)` and every constant
//! as `(c, 0)`.

pub mod dual;
