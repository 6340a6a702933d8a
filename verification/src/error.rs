//! Error taxonomy for graph construction and evaluation.
//!
//! Domain-specific numeric conditions (division by zero, logarithm of a
//! non-positive number) are not errors of the engine: they travel through
//! the value path as IEEE-754 infinities and NaNs.  The engine itself fails
//! only for structural reasons, listed here.

use vstd::prelude::*;
use vstd::string::StringExecFns;

verus! {

/// The character for one decimal digit.
pub open spec fn digit_char(d: int) -> char {
    if d == 0 {
        '0'
    } else if d == 1 {
        '1'
    } else if d == 2 {
        '2'
    } else if d == 3 {
        '3'
    } else if d == 4 {
        '4'
    } else if d == 5 {
        '5'
    } else if d == 6 {
        '6'
    } else if d == 7 {
        '7'
    } else if d == 8 {
        '8'
    } else {
        '9'
    }
}

/// The decimal rendering of a number, most significant digit first, with no
/// leading zeros (a bare `0` for zero).
pub open spec fn decimal(n: int) -> Seq<char>
    recommends
        n >= 0,
    decreases n,
{
    if n < 10 {
        seq![digit_char(n)]
    } else {
        decimal(n / 10).push(digit_char(n % 10))
    }
}

/// The message a given error renders to.
pub open spec fn spec_message(e: AutodiffError) -> Seq<char> {
    match e {
        AutodiffError::ArityError { operation, expected, actual } => "Arity error in "@
            + operation@ + ": expected "@ + decimal(expected as int) + ", got "@ + decimal(
            actual as int,
        ),
        AutodiffError::EmptyGraph => "Computation graph is empty"@,
        AutodiffError::IndexOutOfBounds { index, max_index } => "Index "@ + decimal(index as int)
            + " is out of bounds (max: "@ + decimal(max_index as int) + ")"@,
    }
}

/// One decimal digit as a string slice.
fn digit_str(d: usize) -> (r: &'static str)
    requires
        d < 10,
    ensures
        r@ == seq![digit_char(d as int)],
{
    proof {
        reveal_strlit("0");
        reveal_strlit("1");
        reveal_strlit("2");
        reveal_strlit("3");
        reveal_strlit("4");
        reveal_strlit("5");
        reveal_strlit("6");
        reveal_strlit("7");
        reveal_strlit("8");
        reveal_strlit("9");
    }
    match d {
        0 => "0",
        1 => "1",
        2 => "2",
        3 => "3",
        4 => "4",
        5 => "5",
        6 => "6",
        7 => "7",
        8 => "8",
        _ => "9",
    }
}

/// Render a number in decimal.
fn decimal_string(n: usize) -> (r: String)
    ensures
        r@ == decimal(n as int),
    decreases n,
{
    if n < 10 {
        String::from_str(digit_str(n))
    } else {
        let mut r = decimal_string(n / 10);
        r.append(digit_str(n % 10));
        proof {
            assert(r@ =~= decimal(n as int));
        }
        r
    }
}

/// Errors that can occur while validating or evaluating a computation graph.
#[derive(Debug, Clone, PartialEq)]
pub enum AutodiffError {
    /// An operation received an incorrect number of predecessor indices.
    ArityError {
        /// Name of the operation
        operation: &'static str,
        /// Expected number of arguments
        expected: usize,
        /// Actual number of arguments received
        actual: usize,
    },
    /// The computation graph is empty or invalid.
    ///
    /// Reserved: the engine's chosen policy is that an empty node list is
    /// the identity, so evaluation returns the input unchanged rather than
    /// this error.
    EmptyGraph,
    /// An index references a non-existent value in the computation.
    IndexOutOfBounds {
        /// The invalid index
        index: usize,
        /// The maximum valid index
        max_index: usize,
    },
}

impl AutodiffError {
    /// Create an `ArityError` for an operation with an incorrect argument count.
    pub fn arity(operation: &'static str, expected: usize, actual: usize) -> (r: Self)
        ensures
            r == (AutodiffError::ArityError { operation, expected, actual }),
    {
        AutodiffError::ArityError { operation, expected, actual }
    }

    /// Validate that an operation received the correct number of arguments:
    /// `Ok` exactly when `actual == expected`, and otherwise the arity error
    /// carrying the three values as given.
    pub fn check_arity(operation: &'static str, expected: usize, actual: usize) -> (r: Result<
        (),
        AutodiffError,
    >)
        ensures
            r is Ok <==> actual == expected,
            r is Err ==> r == Result::<(), AutodiffError>::Err(
                AutodiffError::ArityError { operation, expected, actual },
            ),
    {
        if actual == expected {
            Ok(())
        } else {
            Err(AutodiffError::arity(operation, expected, actual))
        }
    }

    /// A human-readable description of the error, naming the operation and
    /// the offending counts or indices.
    pub fn message(&self) -> (r: String)
        ensures
            r@ == spec_message(*self),
    {
        match self {
            AutodiffError::ArityError { operation, expected, actual } => {
                let mut r = String::from_str("Arity error in ");
                r.append(operation);
                r.append(": expected ");
                let d1 = decimal_string(*expected);
                r.append(d1.as_str());
                r.append(", got ");
                let d2 = decimal_string(*actual);
                r.append(d2.as_str());
                proof {
                    assert(r@ =~= spec_message(*self));
                }
                r
            },
            AutodiffError::EmptyGraph => String::from_str("Computation graph is empty"),
            AutodiffError::IndexOutOfBounds { index, max_index } => {
                let mut r = String::from_str("Index ");
                let d1 = decimal_string(*index);
                r.append(d1.as_str());
                r.append(" is out of bounds (max: ");
                let d2 = decimal_string(*max_index);
                r.append(d2.as_str());
                r.append(")");
                proof {
                    assert(r@ =~= spec_message(*self));
                }
                r
            },
        }
    }
}

} // verus!
