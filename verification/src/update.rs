//! The submission of updates, one after the other: the library says which
//! update is due, the caller submits it and reports how it went. The first
//! failure ends the run; what was updated before it stays updated.

use vstd::prelude::*;
use crate::patch::{IssuePatch, IssuePatchView, update_views};

verus! {

/// A run of updates.
#[derive(Debug)]
pub struct UpdateRun {
    updates: Vec<(u64, IssuePatch)>,
    done: usize,
    failed: bool,
}

/// What a run is: its updates, how many of them have been applied, and
/// whether one has failed.
pub ghost struct UpdateRunView {
    pub updates: Seq<(u64, IssuePatchView)>,
    pub done: nat,
    pub failed: bool,
}

/// Whether an update is due: none has failed and not all have been applied.
pub open spec fn is_due(run: UpdateRunView) -> bool {
    !run.failed && run.done < run.updates.len()
}

/// The state after the caller reported on the update that was due: one more
/// is applied if it went well, the run has failed otherwise. A report that no
/// update was due for changes nothing.
pub open spec fn after_report(run: UpdateRunView, succeeded: bool) -> UpdateRunView {
    if !is_due(run) {
        run
    } else if succeeded {
        UpdateRunView { done: run.done + 1, ..run }
    } else {
        UpdateRunView { failed: true, ..run }
    }
}

/// The numbers of the issues of the first `count` updates.
pub open spec fn numbers_of(updates: Seq<(u64, IssuePatchView)>, count: int) -> Seq<u64> {
    Seq::new(count as nat, |i: int| updates[i].0)
}

impl View for UpdateRun {
    type V = UpdateRunView;

    closed spec fn view(&self) -> UpdateRunView {
        UpdateRunView {
            updates: update_views(self.updates@),
            done: self.done as nat,
            failed: self.failed,
        }
    }
}

impl UpdateRun {
    /// No more updates have been applied than there are.
    #[verifier::type_invariant]
    spec fn well_formed(&self) -> bool {
        self.done <= self.updates.len()
    }

    /// Starts a run of the given updates.
    pub fn start(updates: Vec<(u64, IssuePatch)>) -> (run: UpdateRun)
        ensures
            run@ == (UpdateRunView { updates: update_views(updates@), done: 0, failed: false }),
    {
        UpdateRun { updates, done: 0, failed: false }
    }

    /// The update to submit next: the first one that has not been applied,
    /// unless one has failed.
    pub fn next_update(&self) -> (due: Option<&(u64, IssuePatch)>)
        ensures
            match due {
                Some(update) => is_due(self@) && (update.0, update.1@)
                    == self@.updates[self@.done as int],
                None => !is_due(self@),
            },
    {
        if !self.failed && self.done < self.updates.len() {
            Some(&self.updates[self.done])
        } else {
            None
        }
    }

    /// Takes the caller's report on the update that was due.
    pub fn report(&mut self, succeeded: bool)
        ensures
            final(self)@ == after_report(old(self)@, succeeded),
    {
        if !self.failed && self.done < self.updates.len() {
            if succeeded {
                self.done = self.done + 1;
            } else {
                self.failed = true;
            }
        }
    }

    /// Whether an update has failed.
    pub fn has_failed(&self) -> (failed: bool)
        ensures
            failed == self@.failed,
    {
        self.failed
    }

    /// Whether every update has been applied.
    pub fn is_complete(&self) -> (complete: bool)
        ensures
            complete == (!self@.failed && self@.done == self@.updates.len()),
    {
        !self.failed && self.done == self.updates.len()
    }

    /// The numbers of the issues that have been updated, in the order of
    /// the updates.
    pub fn updated(&self) -> (numbers: Vec<u64>)
        ensures
            numbers@ == numbers_of(self@.updates, self@.done as int),
    {
        proof {
            use_type_invariant(self);
        }
        let mut numbers: Vec<u64> = Vec::new();
        let mut i: usize = 0;
        while i < self.done
            invariant
                i <= self.done,
                self.done <= self.updates.len(),
                numbers.len() == i,
                forall|j: int| 0 <= j < i ==> numbers[j] == self.updates[j].0,
            decreases self.done - i,
        {
            numbers.push(self.updates[i].0);
            i += 1;
        }
        assert(numbers@ =~= numbers_of(self@.updates, self@.done as int));
        numbers
    }
}

/// The state after the caller reported on the first `count` of `reports`.
pub open spec fn after_reports(run: UpdateRunView, reports: Seq<bool>, count: nat) -> UpdateRunView
    decreases count,
{
    if count == 0 {
        run
    } else {
        after_report(after_reports(run, reports, (count - 1) as nat), reports[count - 1])
    }
}

/// Whatever is reported, a run never applies more updates than it has, and
/// once an update has failed nothing more is applied.
pub proof fn lemma_run_stops_at_failure(run: UpdateRunView, succeeded: bool)
    requires
        run.done <= run.updates.len(),
    ensures
        after_report(run, succeeded).done <= run.updates.len(),
        after_report(run, succeeded).updates == run.updates,
        run.failed ==> after_report(run, succeeded) == run,
        !succeeded ==> after_report(run, succeeded).done == run.done,
{
}

/// A run that got a report of success for each of its updates has applied
/// them all, and no more is due.
pub proof fn lemma_run_completes(updates: Seq<(u64, IssuePatchView)>, count: nat)
    requires
        count <= updates.len(),
    ensures
        after_reports(
            UpdateRunView { updates, done: 0, failed: false },
            Seq::new(updates.len(), |i: int| true),
            count,
        ) == (UpdateRunView { updates, done: count, failed: false }),
    decreases count,
{
    if count > 0 {
        lemma_run_completes(updates, (count - 1) as nat);
    }
}

} // verus!
