//! A reduced single-variable catalog kept for callers that only need the
//! three classic operations.

use vstd::prelude::*;

verus! {

/// Single-variable chain operations, reduced catalog.
///
/// Behaves like the corresponding variants of [`crate::MonoAD`]: forward
/// formulas are the standard scalar functions, and the local gradient rules
/// are `Sin -> dy * cos(x)`, `Cos -> dy * (-sin(x))`, `Exp -> dy * exp(x)`.
#[derive(Debug, Clone, Copy, PartialEq, Eq, Structural, Hash)]
pub enum MathOp {
    /// Sine function: sin(x)
    Sin,
    /// Cosine function: cos(x)
    Cos,
    /// Exponential function: exp(x)
    Exp,
}

} // verus!
