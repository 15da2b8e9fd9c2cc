//! Conversions between the notations of an RF impedance: the decisions that
//! precede the arithmetic.
//!
//! Unit tags are resolved to exact powers of ten, representation tags to a
//! closed enumeration, and labelled points to their textual form.  The
//! arithmetic on measured values is left to the caller.

pub mod decimal;
pub mod representation;
pub mod text;
pub mod units;
