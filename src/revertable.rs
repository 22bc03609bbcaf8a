use vstd::prelude::*;
use crate::TransactionError;
use crate::timeline::Timeline;

verus! {

/// A value with undo history: every mutation is preceded by a snapshot, and
/// each snapshot is later either committed (discarded, oldest first) or
/// reverted (restored, newest first).
pub trait Transaction<T> where T: Clone {
    /// The abstract state of this container.
    spec fn timeline(&self) -> Timeline<T>;

    /// Returns the current version of the contained item.
    fn get(&self) -> (r: &T)
        ensures
            *r == self.timeline().current,
    ;

    /// Returns the current item for mutation. Obtaining mutable access
    /// begins a transaction: a copy of the item is recorded first.
    fn get_mut(&mut self) -> (r: &mut T)
        ensures
            *r == old(self).timeline().current,
            cloned(old(self).timeline().current, final(self).timeline().newest()),
            final(self).timeline() == (Timeline {
                current: *final(r),
                history: old(self).timeline().begin(final(self).timeline().newest()).history,
            }),
    ;

    /// Begins a new transaction: a copy of the current item is recorded.
    fn begin(&mut self)
        ensures
            cloned(old(self).timeline().current, final(self).timeline().newest()),
            final(self).timeline() == old(self).timeline().begin(final(self).timeline().newest()),
    ;

    /// Accepts the oldest pending change (first in, first out).
    fn commit(&mut self) -> (r: Result<(), TransactionError>)
        ensures
            r == old(self).timeline().outcome(),
            final(self).timeline() == old(self).timeline().commit(),
    ;

    /// Undoes the newest pending change (last in, first out).
    fn revert(&mut self) -> (r: Result<(), TransactionError>)
        ensures
            r == old(self).timeline().outcome(),
            final(self).timeline() == old(self).timeline().revert(),
    ;

    /// Accepts all pending changes.
    fn commit_all(&mut self) -> (r: Result<(), TransactionError>)
        ensures
            r == old(self).timeline().outcome(),
            final(self).timeline() == old(self).timeline().commit_all(),
    ;

    /// Undoes all pending changes, back to the oldest snapshot.
    fn revert_all(&mut self) -> (r: Result<(), TransactionError>)
        ensures
            r == old(self).timeline().outcome(),
            final(self).timeline() == old(self).timeline().revert_all(),
    ;

    /// Forgets all pending snapshots without touching the current item.
    fn clear(&mut self)
        ensures
            final(self).timeline() == old(self).timeline().clear(),
    ;

    /// Returns true if a change is pending.
    fn changed(&self) -> (r: bool)
        ensures
            r == (self.timeline().open_count() > 0),
    ;

    /// Returns the number of pending snapshots.
    fn len(&self) -> (r: usize)
        ensures
            r == self.timeline().open_count(),
    ;
}

/// A value together with its pending snapshots.
#[derive(Debug)]
pub struct Revertable<T> where T: Clone {
    current: T,
    history: Vec<T>,
}

impl<T> Revertable<T> where T: Clone {
    /// Creates a container holding `current`, with no pending snapshot.
    pub fn new(current: T) -> (r: Self)
        ensures
            r.timeline() == (Timeline { current, history: Seq::<T>::empty() }),
    {
        Revertable { current, history: Vec::new() }
    }

    /// Rebuilds a container from its current value and its pending
    /// snapshots, oldest first.
    pub fn from_parts(current: T, history: Vec<T>) -> (r: Self)
        ensures
            r.timeline() == (Timeline { current, history: history@ }),
    {
        Revertable { current, history }
    }

    /// Splits the container into its current value and its pending
    /// snapshots, oldest first.
    pub fn into_parts(self) -> (r: (T, Vec<T>))
        ensures
            r.0 == self.timeline().current,
            r.1@ == self.timeline().history,
    {
        (self.current, self.history)
    }
}

impl<T> Transaction<T> for Revertable<T> where T: Clone {
    closed spec fn timeline(&self) -> Timeline<T> {
        Timeline { current: self.current, history: self.history@ }
    }

    fn get(&self) -> (r: &T) {
        &self.current
    }

    fn get_mut(&mut self) -> (r: &mut T) {
        self.begin();
        &mut self.current
    }

    fn begin(&mut self) {
        let snapshot = self.current.clone();
        self.history.push(snapshot);
    }

    fn commit(&mut self) -> (r: Result<(), TransactionError>) {
        if self.history.len() > 0 {
            self.history.remove(0);
            Ok(())
        } else {
            Err(TransactionError::TransactionNotStarted)
        }
    }

    fn revert(&mut self) -> (r: Result<(), TransactionError>) {
        match self.history.pop() {
            Some(d) => {
                self.current = d;
                Ok(())
            },
            None => Err(TransactionError::TransactionNotStarted),
        }
    }

    fn commit_all(&mut self) -> (r: Result<(), TransactionError>) {
        if self.history.len() > 0 {
            self.clear();
            Ok(())
        } else {
            assert(self.history@ =~= Seq::<T>::empty());
            Err(TransactionError::TransactionNotStarted)
        }
    }

    fn revert_all(&mut self) -> (r: Result<(), TransactionError>) {
        if self.history.len() > 0 {
            self.current = self.history.remove(0);
            self.clear();
            Ok(())
        } else {
            Err(TransactionError::TransactionNotStarted)
        }
    }

    fn clear(&mut self) {
        self.history.clear();
    }

    fn changed(&self) -> (r: bool) {
        self.history.len() > 0
    }

    fn len(&self) -> (r: usize) {
        self.history.len()
    }
}

} // verus!
