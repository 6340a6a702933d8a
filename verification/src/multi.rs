//! Operation catalog for multi-variable computation graphs.
//!
//! Each operation has a declared arity and a name used in error reports.
//! A graph node pairs one of these operations with the tape positions of its
//! predecessors; `Inp` is a placeholder that refers back into the input
//! range and never occupies a tape position of its own.

use vstd::prelude::*;

verus! {

/// Operations available in a multi-variable computation graph.
///
/// Unary operations read one predecessor value, binary operations two.
/// Forward formulas and local-gradient rules follow the standard scalar
/// definitions with IEEE-754 semantics; the verified core only tracks
/// which operation stands at which node and how many arguments it takes.
#[derive(Debug, Clone, Copy, PartialEq, Eq, Structural, Hash)]
pub enum MultiAD {
    /// Input placeholder - references an input variable
    Inp,
    /// Addition: a + b
    Add,
    /// Subtraction: a - b
    Sub,
    /// Multiplication: a * b
    Mul,
    /// Division: a / b (IEEE-754: infinity for a nonzero numerator over zero,
    /// NaN for 0/0)
    Div,
    /// Power: a^b (a raised to the power of b)
    Pow,
    /// Sine function: sin(x)
    Sin,
    /// Cosine function: cos(x)
    Cos,
    /// Tangent function: tan(x)
    Tan,
    /// Exponential function: exp(x)
    Exp,
    /// Natural logarithm: ln(x) (IEEE-754: NaN for negative arguments,
    /// negative infinity at zero)
    Ln,
    /// Square root: sqrt(x) (IEEE-754: NaN for negative arguments)
    Sqrt,
    /// Absolute value: abs(x)
    Abs,
}

/// The name under which an operation appears in error reports.
pub open spec fn spec_op_name(op: MultiAD) -> Seq<char> {
    match op {
        MultiAD::Inp => "Inp"@,
        MultiAD::Add => "Add"@,
        MultiAD::Sub => "Sub"@,
        MultiAD::Mul => "Mul"@,
        MultiAD::Div => "Div"@,
        MultiAD::Pow => "Pow"@,
        MultiAD::Sin => "Sin"@,
        MultiAD::Cos => "Cos"@,
        MultiAD::Tan => "Tan"@,
        MultiAD::Exp => "Exp"@,
        MultiAD::Ln => "Ln"@,
        MultiAD::Sqrt => "Sqrt"@,
        MultiAD::Abs => "Abs"@,
    }
}

/// The number of predecessor indices an operation must be given.
pub open spec fn spec_arity(op: MultiAD) -> nat {
    match op {
        MultiAD::Inp => 1,
        MultiAD::Sin => 1,
        MultiAD::Cos => 1,
        MultiAD::Tan => 1,
        MultiAD::Exp => 1,
        MultiAD::Ln => 1,
        MultiAD::Sqrt => 1,
        MultiAD::Abs => 1,
        MultiAD::Add => 2,
        MultiAD::Sub => 2,
        MultiAD::Mul => 2,
        MultiAD::Div => 2,
        MultiAD::Pow => 2,
    }
}

/// Whether an operation is the input placeholder, which refers back into the
/// input range instead of producing a new tape entry.
pub open spec fn is_placeholder(op: MultiAD) -> bool {
    op is Inp
}

impl MultiAD {
    /// Get the name of this operation (for error messages and arity checking)
    pub fn op_name(&self) -> (r: &'static str)
        ensures
            r@ == spec_op_name(*self),
    {
        match self {
            MultiAD::Inp => "Inp",
            MultiAD::Add => "Add",
            MultiAD::Sub => "Sub",
            MultiAD::Mul => "Mul",
            MultiAD::Div => "Div",
            MultiAD::Pow => "Pow",
            MultiAD::Sin => "Sin",
            MultiAD::Cos => "Cos",
            MultiAD::Tan => "Tan",
            MultiAD::Exp => "Exp",
            MultiAD::Ln => "Ln",
            MultiAD::Sqrt => "Sqrt",
            MultiAD::Abs => "Abs",
        }
    }

    /// Get the expected arity for this operation
    pub fn expected_arity(&self) -> (r: usize)
        ensures
            r == spec_arity(*self),
    {
        match self {
            MultiAD::Inp | MultiAD::Sin | MultiAD::Cos | MultiAD::Tan | MultiAD::Exp
            | MultiAD::Ln | MultiAD::Sqrt | MultiAD::Abs => 1,
            MultiAD::Add | MultiAD::Sub | MultiAD::Mul | MultiAD::Div | MultiAD::Pow => 2,
        }
    }

    /// Whether this node is an input placeholder.
    pub fn is_input(&self) -> (r: bool)
        ensures
            r == is_placeholder(*self),
    {
        matches!(self, MultiAD::Inp)
    }
}

} // verus!
