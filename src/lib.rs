use vstd::prelude::*;

pub mod embedded;
pub mod revertable;
pub mod timeline;

pub use revertable::{Revertable, Transaction};
pub use timeline::Timeline;

verus! {

/// Failure of a transaction operation.
#[derive(Debug, PartialEq, Eq, Copy, Clone)]
pub enum TransactionError {
    /// A commit or revert was requested while no snapshot was pending.
    TransactionNotStarted,
}

} // verus!
