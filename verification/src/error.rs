//! The errors that stop a program before its first instruction runs.

use vstd::prelude::*;

verus! {

/// Why a program source was rejected, and where: `location` counts lines of
/// the source, or instructions of the program where the fault was found in
/// the decoded program, from zero.
#[derive(Clone, Copy, Debug, PartialEq, Eq, Structural)]
pub enum ParseError {
    /// The source names an operation that the machine does not have.
    UnknownOpcode { location: usize },
    /// An operand is malformed or out of range.
    BadOperand { location: usize },
    /// A data directive is malformed.
    MalformedData { location: usize },
}

/// Why a program could not be installed in a simulator.
#[derive(Clone, Copy, Debug, PartialEq, Eq, Structural)]
pub enum LoadError {
    /// The program was rejected while it was parsed or checked.
    Parse(ParseError),
    /// The initial data image is larger than the data segment.
    CapacityExceeded,
}

} // verus!
