//! Operation catalog for single-variable chains.
//!
//! A chain applies unary operations to one scalar in sequence; every node
//! reads the immediately preceding value, so no predecessor indices are
//! needed and the arity of every operation is one.

use vstd::prelude::*;

verus! {

/// Single-variable chain operations.
///
/// A slice of these describes the composition applied left to right:
/// `[Sin, Exp]` stands for `exp(sin(x))`.  Forward formulas are the standard
/// scalar functions; the local gradient rules, given an output cotangent
/// `dy`, are `Sin -> dy * cos(x)`, `Cos -> dy * (-sin(x))`,
/// `Exp -> dy * exp(x)` and `Neg -> dy * (-1)`.
#[derive(Debug, Clone, Copy, PartialEq, Eq, Structural, Hash)]
pub enum MonoAD {
    /// Sine function: sin(x)
    Sin,
    /// Cosine function: cos(x)
    Cos,
    /// Exponential function: exp(x)
    Exp,
    /// Negation: -x
    Neg,
}

} // verus!
