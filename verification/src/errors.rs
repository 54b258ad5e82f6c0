//! Error taxonomy of the ledger core.
//!
//! A transaction is rejected for one of three reasons: its payload could
//! not be decoded into an action, a precondition of an otherwise
//! well-formed action did not hold, or the store handed back something
//! unusable. The three kinds stay distinct so a caller can tell an
//! invalid transaction from an unhealthy system.

use vstd::prelude::*;

verus! {

/// The payload bytes could not be turned into a valid action.
#[derive(Clone, Copy, Debug, PartialEq, Eq, Structural)]
pub enum DecodeError {
    /// The payload is not valid UTF-8 text.
    Encoding,
    /// The field count is outside two or three, or a required field is empty.
    Malformed,
    /// The action field matches no known action name.
    UnknownAction,
    /// The amount field does not parse as a non-negative integer.
    InvalidAmount,
}

/// A precondition of a well-formed action does not hold; the handler
/// performs no writes.
#[derive(Clone, Copy, Debug, PartialEq, Eq, Structural)]
pub enum ValidationError {
    /// The amount exceeds what the signer's balance allows.
    InsufficientBalance,
    /// The amount exceeds what the signer's credit allows.
    InsufficientCredit,
    /// The action needs a third payload field that was not supplied.
    MissingArgument,
}

/// The store returned malformed data, or an underlying write failed.
#[derive(Clone, Copy, Debug, PartialEq, Eq, Structural)]
pub enum StateError {
    /// A present record is not the ASCII-decimal encoding of a `u32`.
    Corrupt,
    /// The underlying store reported a failure. Never produced by the
    /// in-memory snapshot itself; the layer that flushes writes to the
    /// real store reports it.
    Backend,
}

/// Everything that can make one application of a transaction fail.
#[derive(Clone, Copy, Debug, PartialEq, Eq, Structural)]
pub enum ApplyError {
    Decode(DecodeError),
    Validation(ValidationError),
    State(StateError),
}

} // verus!
