//! The dual-number type, its arithmetic, and the laws it obeys.

pub mod dual_numbers;
pub mod functions;
pub mod laws;

pub use self::dual_numbers::Dual;
