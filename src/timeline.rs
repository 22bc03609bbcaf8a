use vstd::prelude::*;
use crate::TransactionError;

verus! {

/// The abstract state of a versioned value: the live value and the pending
/// snapshots, oldest first.
pub struct Timeline<T> {
    pub current: T,
    pub history: Seq<T>,
}

impl<T> Timeline<T> {
    /// Number of open transactions.
    pub open spec fn open_count(self) -> nat {
        self.history.len()
    }

    /// Most recently recorded snapshot.
    pub open spec fn newest(self) -> T {
        self.history.last()
    }

    /// Records `snapshot` as the newest pending snapshot.
    pub open spec fn begin(self, snapshot: T) -> Timeline<T> {
        Timeline { current: self.current, history: self.history.push(snapshot) }
    }

    /// Drops the oldest pending snapshot; nothing changes when none is pending.
    pub open spec fn commit(self) -> Timeline<T> {
        if self.history.len() == 0 {
            self
        } else {
            Timeline { current: self.current, history: self.history.drop_first() }
        }
    }

    /// Restores the newest pending snapshot; nothing changes when none is pending.
    pub open spec fn revert(self) -> Timeline<T> {
        if self.history.len() == 0 {
            self
        } else {
            Timeline { current: self.history.last(), history: self.history.drop_last() }
        }
    }

    /// Forgets every pending snapshot, keeping the live value.
    pub open spec fn clear(self) -> Timeline<T> {
        Timeline { current: self.current, history: Seq::empty() }
    }

    /// Keeps the live value and drops every pending snapshot.
    pub open spec fn commit_all(self) -> Timeline<T> {
        self.clear()
    }

    /// Restores the oldest pending snapshot and drops all of them; nothing
    /// changes when none is pending.
    pub open spec fn revert_all(self) -> Timeline<T> {
        if self.history.len() == 0 {
            self
        } else {
            Timeline { current: self.history[0], history: Seq::empty() }
        }
    }

    /// What a fallible operation reports on this state.
    pub open spec fn outcome(self) -> Result<(), TransactionError> {
        if self.history.len() == 0 {
            Err(TransactionError::TransactionNotStarted)
        } else {
            Ok(())
        }
    }
}

/// One operation on a container, as seen by its history.
pub enum Step<T> {
    /// `begin` or `get_mut`, recording the given snapshot.
    Begin(T),
    Commit,
    Revert,
}

impl<T> Timeline<T> {
    /// The state after one step.
    pub open spec fn apply(self, step: Step<T>) -> Timeline<T> {
        match step {
            Step::Begin(snapshot) => self.begin(snapshot),
            Step::Commit => self.commit(),
            Step::Revert => self.revert(),
        }
    }

    /// The state after the given steps, in order.
    pub open spec fn replay(self, steps: Seq<Step<T>>) -> Timeline<T>
        decreases steps.len(),
    {
        if steps.len() == 0 {
            self
        } else {
            self.apply(steps[0]).replay(steps.drop_first())
        }
    }
}

/// Number of transactions that the steps open.
pub open spec fn begins<T>(steps: Seq<Step<T>>) -> nat
    decreases steps.len(),
{
    if steps.len() == 0 {
        0
    } else {
        (if steps[0] is Begin { 1nat } else { 0nat }) + begins(steps.drop_first())
    }
}

/// Number of transactions that the steps resolve, by commit or by revert.
pub open spec fn resolutions<T>(steps: Seq<Step<T>>) -> nat
    decreases steps.len(),
{
    if steps.len() == 0 {
        0
    } else {
        (if steps[0] is Begin { 0nat } else { 1nat }) + resolutions(steps.drop_first())
    }
}

/// Every commit and revert among the steps finds an open transaction, when
/// `open` transactions are open before the first step.
pub open spec fn matched<T>(open: nat, steps: Seq<Step<T>>) -> bool
    decreases steps.len(),
{
    if steps.len() == 0 {
        true
    } else if steps[0] is Begin {
        matched(open + 1, steps.drop_first())
    } else {
        open > 0 && matched((open - 1) as nat, steps.drop_first())
    }
}

/// The number of pending snapshots is the number of transactions opened and
/// not yet resolved by a commit or a revert.
pub proof fn lemma_open_count_tracks_transactions<T>(t: Timeline<T>, steps: Seq<Step<T>>)
    requires
        matched(t.open_count(), steps),
    ensures
        t.replay(steps).open_count() + resolutions(steps) == t.open_count() + begins(steps),
    decreases steps.len(),
{
    if steps.len() > 0 {
        lemma_open_count_tracks_transactions(t.apply(steps[0]), steps.drop_first());
    }
}

/// After committing all or reverting all, nothing is pending.
pub proof fn lemma_drain_empties<T>(t: Timeline<T>)
    ensures
        t.commit_all().open_count() == 0,
        t.revert_all().open_count() == 0,
{
}

/// Values whose clones are always equal to them.
pub open spec fn exact_clones<T: Clone>() -> bool {
    forall|a: T, b: T| #[trigger] cloned(a, b) ==> a == b
}

/// A commit right after a begin keeps the current value and the number of
/// pending snapshots, and drops the oldest of the snapshots then pending
/// (where clones are exact, the begin recorded the current value itself);
/// any commit with a snapshot pending drops exactly one.
pub proof fn lemma_begin_then_commit<T: Clone>(t: Timeline<T>, snapshot: T)
    requires
        cloned(t.current, snapshot),
    ensures
        t.begin(snapshot).commit().current == t.current,
        t.begin(snapshot).commit().open_count() == t.open_count(),
        t.begin(snapshot).commit().history == t.history.push(snapshot).drop_first(),
        exact_clones::<T>() ==> t.begin(snapshot).commit().history == t.history.push(
            t.current,
        ).drop_first(),
        t.open_count() > 0 ==> t.commit().open_count() == t.open_count() - 1,
{
}

/// A revert right after a begin restores the value from before the begin (a
/// clone of it, equal to it where clones are exact) and the pending
/// snapshots from before the begin.
pub proof fn lemma_begin_then_revert<T: Clone>(t: Timeline<T>, snapshot: T)
    requires
        cloned(t.current, snapshot),
    ensures
        cloned(t.current, t.begin(snapshot).revert().current),
        t.begin(snapshot).revert().history == t.history,
        t.begin(snapshot).revert().open_count() == t.begin(snapshot).open_count() - 1,
        exact_clones::<T>() ==> t.begin(snapshot).revert() == t,
{
    assert(t.history.push(snapshot).drop_last() =~= t.history);
}

/// With nothing pending, every commit and revert fails and changes nothing.
pub proof fn lemma_nothing_pending<T>(t: Timeline<T>)
    requires
        t.open_count() == 0,
    ensures
        t.outcome() == Err::<(), TransactionError>(TransactionError::TransactionNotStarted),
        t.commit() == t,
        t.revert() == t,
        t.commit_all() == t,
        t.revert_all() == t,
{
    assert(t.history =~= Seq::<T>::empty());
}

} // verus!
