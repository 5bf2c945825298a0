//! The classes into which every failure of an operation falls.

use vstd::prelude::*;

verus! {

/// What went wrong, by class. Each error of an operation belongs to one.
#[derive(Clone, Copy, Debug, PartialEq, Eq, Structural)]
pub enum ErrorKind {
    /// An amount, a goal, a time window or a balance is not acceptable.
    Validation,
    /// The caller does not hold the role the operation is reserved for.
    Authorization,
    /// The operation came outside the time window it is allowed in.
    Timing,
    /// A checked sum would not fit.
    Arithmetic,
    /// The record is not in a state that allows the operation.
    State,
    /// The price feed is not the trusted one or carries no usable price.
    Oracle,
}

} // verus!
