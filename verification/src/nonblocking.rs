//! The tri-state result of a non-blocking operation.
//!
//! Every polled operation of the drivers returns immediately with one of
//! three outcomes: the value (`Ok`), a terminal fault (`Err(Other(..))`), or
//! a first-class "try again" signal (`Err(WouldBlock)`). Would-block is not
//! an error: the caller decides whether to spin, sleep, or defer.

use vstd::prelude::*;

verus! {

/// The non-success half of a non-blocking result.
#[derive(Clone, Copy, Debug, PartialEq, Eq, Structural)]
pub enum NbError<E> {
    /// A terminal fault of this call; never retried internally.
    Other(E),
    /// The operation is not ready yet; retry later.
    WouldBlock,
}

} // verus!
