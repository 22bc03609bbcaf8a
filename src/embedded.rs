//! History kept inside an aggregate type itself: the aggregate holds a
//! `TransactionData<Self>` field and snapshots its whole value. The ordering
//! rules are the ones of `Revertable`: commit drops the oldest snapshot,
//! revert restores the newest.
use vstd::prelude::*;

verus! {

/// An aggregate that snapshots itself.
///
/// An implementation records `self.clone()` through
/// `TransactionData::record` in `begin` and delegates `commit` to
/// `TransactionData::commit`. In `revert` it takes the snapshot returned by
/// `TransactionData::revert`, moves its own remaining history into that
/// snapshot, and assigns the snapshot to `*self`:
///
/// ```ignore
/// let mut prev = self.transaction_data.revert()?;
/// std::mem::swap(&mut prev.transaction_data, &mut self.transaction_data);
/// *self = prev;
/// ```
///
/// The snapshot's own `transaction_data` is the history from before the
/// matching `begin`; keeping it would bring back snapshots that commits have
/// dropped since.
pub trait Transaction: Clone {
    /// Begins a transaction.
    fn begin(&mut self);

    /// Commits a transaction.
    fn commit(&mut self) -> Result<(), TransactionError>;

    /// Reverts a transaction.
    fn revert(&mut self) -> Result<(), TransactionError>;

    /// Number of open transactions.
    fn len(&self) -> usize;
}

/// Pending snapshots of an aggregate, oldest first.
#[derive(Clone, PartialEq, Eq, PartialOrd, Ord)]
pub struct TransactionData<T> {
    pub t: Vec<T>,
}

/// Reasons a transaction operation fails.
#[derive(Debug, PartialEq, Eq, Copy, Clone)]
pub enum TransactionErrorType {
    TransactionNotStarted,
}

/// A failed transaction operation and its cause.
#[derive(Debug, Copy, Clone)]
pub struct TransactionError {
    pub cause: TransactionErrorType,
}

impl<T> TransactionData<T> {
    /// No pending snapshot.
    pub fn new() -> (r: Self)
        ensures
            r.t@ == Seq::<T>::empty(),
    {
        TransactionData { t: Vec::new() }
    }

    /// Records `snapshot` as the newest pending snapshot.
    pub fn record(&mut self, snapshot: T)
        ensures
            final(self).t@ == old(self).t@.push(snapshot),
    {
        self.t.push(snapshot);
    }

    /// Drops the oldest pending snapshot.
    pub fn commit(&mut self) -> (r: Result<(), TransactionError>)
        ensures
            old(self).t@.len() == 0 ==> r == Err::<(), TransactionError>(
                TransactionError { cause: TransactionErrorType::TransactionNotStarted },
            ) && final(self).t@ == old(self).t@,
            old(self).t@.len() > 0 ==> r == Ok::<(), TransactionError>(()) && final(self).t@
                == old(self).t@.drop_first(),
    {
        if self.t.len() > 0 {
            self.t.remove(0);
            Ok(())
        } else {
            Err(TransactionError::new(TransactionErrorType::TransactionNotStarted))
        }
    }

    /// Removes the newest pending snapshot and hands it back, to be
    /// restored by the caller.
    pub fn revert(&mut self) -> (r: Result<T, TransactionError>)
        ensures
            old(self).t@.len() == 0 ==> r == Err::<T, TransactionError>(
                TransactionError { cause: TransactionErrorType::TransactionNotStarted },
            ) && final(self).t@ == old(self).t@,
            old(self).t@.len() > 0 ==> r == Ok::<T, TransactionError>(old(self).t@.last())
                && final(self).t@ == old(self).t@.drop_last(),
    {
        match self.t.pop() {
            Some(prev) => Ok(prev),
            None => Err(TransactionError::new(TransactionErrorType::TransactionNotStarted)),
        }
    }

    /// Number of pending snapshots.
    pub fn len(&self) -> (r: usize)
        ensures
            r == self.t@.len(),
    {
        self.t.len()
    }
}

impl TransactionError {
    pub fn new(cause: TransactionErrorType) -> (r: Self)
        ensures
            r.cause == cause,
    {
        TransactionError { cause }
    }

    /// Human-readable description of the cause.
    pub fn to_string(&self) -> (r: &str)
        ensures
            r@ == "Transaction not started"@,
    {
        match self.cause {
            TransactionErrorType::TransactionNotStarted => "Transaction not started",
        }
    }
}

} // verus!
