//! A run over a list of jobs: one job at a time, in the order of the
//! list, and no further job once one has failed.

use vstd::prelude::*;
use crate::pipeline::{action_of, next_phase, Action, Phase};

verus! {

/// Where a run stands: the position of the job at work, which is the
/// number of jobs when none is left, and the phase of its build.
pub struct Progress {
    pub job: nat,
    pub phase: Phase,
}

/// The start of a run: the first job, with nothing done.
pub open spec fn run_start() -> Progress {
    Progress { job: 0, phase: Phase::Idle }
}

/// What the driver has to do at some point of a run over `jobs` jobs.
pub open spec fn run_action_of(progress: Progress, jobs: nat) -> Action {
    if progress.job >= jobs {
        Action::Finish
    } else {
        action_of(progress.phase)
    }
}

/// Where the run stands once the action has ended: the job at work moves
/// to its next phase, and when its result is recorded the next job starts.
pub open spec fn next_progress(progress: Progress, jobs: nat, succeeded: bool) -> Progress {
    if progress.job >= jobs {
        progress
    } else if next_phase(progress.phase, succeeded) == Phase::Done {
        Progress { job: progress.job + 1, phase: Phase::Idle }
    } else {
        Progress { job: progress.job, phase: next_phase(progress.phase, succeeded) }
    }
}

/// Where a run over `jobs` jobs stands after its actions ended as
/// `outcomes` says, one outcome per action.
pub open spec fn progress_after(jobs: nat, outcomes: Seq<bool>) -> Progress
    decreases outcomes.len(),
{
    if outcomes.len() == 0 {
        run_start()
    } else {
        next_progress(progress_after(jobs, outcomes.drop_last()), jobs, outcomes.last())
    }
}

/// As many successes as `count` says.
pub open spec fn successes(count: nat) -> Seq<bool> {
    Seq::new(count, |i: int| true)
}

/// Where a run stands.
#[derive(Clone, Copy, Debug, PartialEq, Eq)]
pub struct RunState {
    job: usize,
    phase: Phase,
}

impl View for RunState {
    type V = Progress;

    closed spec fn view(&self) -> Progress {
        Progress { job: self.job as nat, phase: self.phase }
    }
}

impl RunState {
    #[verifier::type_invariant]
    spec fn well_formed(self) -> bool {
        self.phase != Phase::Done
    }

    /// The start of a run.
    pub fn start() -> (state: RunState)
        ensures
            state@ == run_start(),
    {
        RunState { job: 0, phase: Phase::Idle }
    }

    /// Position of the job at work in the list of jobs.
    pub fn job(&self) -> (job: usize)
        ensures
            job == self@.job,
    {
        self.job
    }

    /// Phase of the job at work.
    pub fn phase(&self) -> (phase: Phase)
        ensures
            phase == self@.phase,
            phase != Phase::Done,
    {
        proof {
            use_type_invariant(self);
        }
        self.phase
    }

    /// What the driver has to do now, in a run over `jobs` jobs. It is
    /// `Finish` exactly when no job is left.
    pub fn action(&self, jobs: usize) -> (action: Action)
        ensures
            action == run_action_of(self@, jobs as nat),
            action == Action::Finish <==> self@.job >= jobs,
    {
        proof {
            use_type_invariant(self);
        }
        if self.job >= jobs {
            Action::Finish
        } else {
            self.phase.action()
        }
    }

    /// Where the run stands once the action has ended.
    pub fn advance(self, jobs: usize, succeeded: bool) -> (next: RunState)
        ensures
            next@ == next_progress(self@, jobs as nat, succeeded),
    {
        proof {
            use_type_invariant(self);
        }
        if self.job >= jobs {
            self
        } else {
            match self.phase.advance(succeeded) {
                Phase::Done => RunState { job: self.job + 1, phase: Phase::Idle },
                phase => RunState { job: self.job, phase },
            }
        }
    }
}

/// A run never counts more jobs than there are, and the job at work is
/// never in the phase `Done`: a recorded job makes room for the next.
pub proof fn lemma_progress_in_range(jobs: nat, outcomes: Seq<bool>)
    ensures
        progress_after(jobs, outcomes).job <= jobs,
        progress_after(jobs, outcomes).phase != Phase::Done,
    decreases outcomes.len(),
{
    if outcomes.len() > 0 {
        lemma_progress_in_range(jobs, outcomes.drop_last());
    }
}

/// Jobs are built one at a time and in order. One more outcome either
/// leaves the run at the same job, or moves it to the next one; and it
/// moves to the next one exactly when the outcome is that the result of
/// the job at work was recorded. The next job then starts with nothing done.
pub proof fn lemma_jobs_in_order(jobs: nat, outcomes: Seq<bool>)
    requires
        outcomes.len() > 0,
    ensures
        ({
            let before = progress_after(jobs, outcomes.drop_last());
            let after = progress_after(jobs, outcomes);
            let recorded = before.job < jobs && before.phase == Phase::Measuring
                && outcomes.last();
            &&& recorded ==> after == Progress { job: before.job + 1, phase: Phase::Idle }
            &&& !recorded ==> after.job == before.job
        }),
{
    lemma_progress_in_range(jobs, outcomes.drop_last());
}

/// A failure ends the run: once a job has been given up, the run stays
/// where it is whatever is reported to it, all that is left to do is to
/// abort, and no later job is ever started.
pub proof fn lemma_failure_ends_run(jobs: nat, outcomes: Seq<bool>, more: Seq<bool>)
    requires
        progress_after(jobs, outcomes).phase is Failed,
    ensures
        progress_after(jobs, outcomes + more) == progress_after(jobs, outcomes),
        progress_after(jobs, outcomes).job < jobs ==> run_action_of(
            progress_after(jobs, outcomes + more),
            jobs,
        ) is Abort,
    decreases more.len(),
{
    if more.len() == 0 {
        assert(outcomes + more =~= outcomes);
    } else {
        lemma_failure_ends_run(jobs, outcomes, more.drop_last());
        assert((outcomes + more).drop_last() =~= outcomes + more.drop_last());
        assert((outcomes + more).last() == more.last());
    }
}

/// A run that is over stays over.
pub proof fn lemma_finished_run_stays(jobs: nat, outcomes: Seq<bool>, more: Seq<bool>)
    requires
        progress_after(jobs, outcomes).job >= jobs,
    ensures
        progress_after(jobs, outcomes + more) == progress_after(jobs, outcomes),
        run_action_of(progress_after(jobs, outcomes + more), jobs) == Action::Finish,
    decreases more.len(),
{
    if more.len() == 0 {
        assert(outcomes + more =~= outcomes);
    } else {
        lemma_finished_run_stays(jobs, outcomes, more.drop_last());
        assert((outcomes + more).drop_last() =~= outcomes + more.drop_last());
        assert((outcomes + more).last() == more.last());
    }
}

/// Where every action succeeds, each job takes six actions, and after
/// six times the number of jobs the run is over.
pub proof fn lemma_run_of_successes(jobs: nat, done: nat)
    requires
        done <= jobs,
    ensures
        progress_after(jobs, successes(6 * done)) == (Progress { job: done, phase: Phase::Idle }),
        done == jobs ==> run_action_of(progress_after(jobs, successes(6 * done)), jobs)
            == Action::Finish,
    decreases done,
{
    if done == 0 {
        assert(successes(0).len() == 0);
    } else {
        let base = (6 * (done - 1)) as nat;
        lemma_run_of_successes(jobs, (done - 1) as nat);
        assert(successes(base + 1).drop_last() =~= successes(base));
        assert(successes(base + 2).drop_last() =~= successes(base + 1));
        assert(successes(base + 3).drop_last() =~= successes(base + 2));
        assert(successes(base + 4).drop_last() =~= successes(base + 3));
        assert(successes(base + 5).drop_last() =~= successes(base + 4));
        assert(successes(base + 6).drop_last() =~= successes(base + 5));
        assert(progress_after(jobs, successes(base + 1)).phase == Phase::Deleted);
        assert(progress_after(jobs, successes(base + 2)).phase == Phase::Created);
        assert(progress_after(jobs, successes(base + 3)).phase == Phase::Ingesting);
        assert(progress_after(jobs, successes(base + 4)).phase == Phase::Ingested);
        assert(progress_after(jobs, successes(base + 5)).phase == Phase::Measuring);
        assert(progress_after(jobs, successes(base + 5)).job == done - 1);
        assert(base + 6 == 6 * done);
    }
}

} // verus!
