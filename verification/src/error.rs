//! The ways in which an operation of the engine can fail.

use vstd::prelude::*;

verus! {

/// Why an operation was refused. A refused operation changes nothing.
#[derive(Clone, Copy, Debug, PartialEq, Eq, Structural)]
pub enum IgpError {
    /// The caller lacks the role that the operation requires.
    Unauthorized,
    /// No gas oracle is configured for the destination domain.
    UnsupportedDomain,
    /// The attached amount is below the quote.
    InsufficientPayment,
    /// A quantity would exceed the range of its type.
    Overflow,
    /// A configuration batch is malformed: it names a domain twice.
    InvalidConfiguration,
}

} // verus!
