//! The build of one index as a state machine.
//!
//! A job moves through its phases in one order. In each phase the driver
//! performs the action of that phase and reports whether it succeeded;
//! the machine answers with the next phase. A failed delete is not an
//! error, since the index may not have existed, and reading the clock
//! cannot fail. Every other failure ends the job.

use vstd::prelude::*;

verus! {

/// Why the build of an index was given up.
#[derive(Clone, Copy, Debug, PartialEq, Eq, Structural)]
pub enum BuildError {
    /// The engine refused to create the index.
    CreateFailed,
    /// The engine failed to ingest the data.
    IngestFailed,
    /// The index or its input could not be measured on disk.
    Filesystem,
    /// The result could not be written to the log.
    Persistence,
}

/// How far the build of an index has come.
#[derive(Clone, Copy, Debug, PartialEq, Eq, Structural)]
pub enum Phase {
    /// Nothing has been done.
    Idle,
    /// A delete of the index has been issued and has ended.
    Deleted,
    /// The index exists and is empty.
    Created,
    /// The clock runs and the ingest is to be issued.
    Ingesting,
    /// The ingest has ended and its duration is known.
    Ingested,
    /// Splits and sizes are known.
    Measuring,
    /// The result has been recorded.
    Done,
    /// The build was given up.
    Failed(BuildError),
}

/// What the driver has to do.
#[derive(Clone, Copy, Debug, PartialEq, Eq, Structural)]
pub enum Action {
    /// Ask the engine to delete the index.
    DeleteIndex,
    /// Ask the engine to create the index.
    CreateIndex,
    /// Read the clock: the ingest starts now.
    StartClock,
    /// Ask the engine to ingest the data and, as soon as it has ended,
    /// read the clock again.
    Ingest,
    /// List the splits and measure the index and its input on disk.
    Measure,
    /// Build the result and append it to the log.
    Record,
    /// Nothing is left to do for this index.
    Finish,
    /// Give the run up for the given reason.
    Abort(BuildError),
}

/// The action of a phase.
pub open spec fn action_of(phase: Phase) -> Action {
    match phase {
        Phase::Idle => Action::DeleteIndex,
        Phase::Deleted => Action::CreateIndex,
        Phase::Created => Action::StartClock,
        Phase::Ingesting => Action::Ingest,
        Phase::Ingested => Action::Measure,
        Phase::Measuring => Action::Record,
        Phase::Done => Action::Finish,
        Phase::Failed(error) => Action::Abort(error),
    }
}

/// The phase that follows `phase` once its action has ended.
pub open spec fn next_phase(phase: Phase, succeeded: bool) -> Phase {
    match phase {
        Phase::Idle => Phase::Deleted,
        Phase::Deleted => if succeeded {
            Phase::Created
        } else {
            Phase::Failed(BuildError::CreateFailed)
        },
        Phase::Created => Phase::Ingesting,
        Phase::Ingesting => if succeeded {
            Phase::Ingested
        } else {
            Phase::Failed(BuildError::IngestFailed)
        },
        Phase::Ingested => if succeeded {
            Phase::Measuring
        } else {
            Phase::Failed(BuildError::Filesystem)
        },
        Phase::Measuring => if succeeded {
            Phase::Done
        } else {
            Phase::Failed(BuildError::Persistence)
        },
        Phase::Done => Phase::Done,
        Phase::Failed(error) => Phase::Failed(error),
    }
}

/// The phase that a job is in after its actions ended as `outcomes` says,
/// one outcome per action, starting from `Idle`.
pub open spec fn phase_after(outcomes: Seq<bool>) -> Phase
    decreases outcomes.len(),
{
    if outcomes.len() == 0 {
        Phase::Idle
    } else {
        next_phase(phase_after(outcomes.drop_last()), outcomes.last())
    }
}

/// The actions of a build that succeeds, in their order.
pub open spec fn schedule() -> Seq<Action> {
    seq![
        Action::DeleteIndex,
        Action::CreateIndex,
        Action::StartClock,
        Action::Ingest,
        Action::Measure,
        Action::Record,
    ]
}

/// A phase in which work is left.
pub open spec fn is_active(phase: Phase) -> bool {
    phase != Phase::Done && !(phase is Failed)
}

impl Phase {
    /// The action that the driver has to perform in this phase.
    pub fn action(self) -> (action: Action)
        ensures
            action == action_of(self),
    {
        match self {
            Phase::Idle => Action::DeleteIndex,
            Phase::Deleted => Action::CreateIndex,
            Phase::Created => Action::StartClock,
            Phase::Ingesting => Action::Ingest,
            Phase::Ingested => Action::Measure,
            Phase::Measuring => Action::Record,
            Phase::Done => Action::Finish,
            Phase::Failed(error) => Action::Abort(error),
        }
    }

    /// The phase that follows once the action of this phase has ended,
    /// with or without success.
    pub fn advance(self, succeeded: bool) -> (next: Phase)
        ensures
            next == next_phase(self, succeeded),
    {
        match self {
            Phase::Idle => Phase::Deleted,
            Phase::Deleted => if succeeded {
                Phase::Created
            } else {
                Phase::Failed(BuildError::CreateFailed)
            },
            Phase::Created => Phase::Ingesting,
            Phase::Ingesting => if succeeded {
                Phase::Ingested
            } else {
                Phase::Failed(BuildError::IngestFailed)
            },
            Phase::Ingested => if succeeded {
                Phase::Measuring
            } else {
                Phase::Failed(BuildError::Filesystem)
            },
            Phase::Measuring => if succeeded {
                Phase::Done
            } else {
                Phase::Failed(BuildError::Persistence)
            },
            Phase::Done => Phase::Done,
            Phase::Failed(error) => Phase::Failed(error),
        }
    }

    /// Whether work is left in this phase.
    pub fn is_active(self) -> (active: bool)
        ensures
            active == is_active(self),
    {
        match self {
            Phase::Done => false,
            Phase::Failed(_) => false,
            _ => true,
        }
    }
}

/// One step of a build: from the phase whose action has ended, and how it
/// ended, to the next phase and the action to perform there.
pub fn step(phase: Phase, succeeded: bool) -> (next: (Phase, Action))
    ensures
        next.0 == next_phase(phase, succeeded),
        next.1 == action_of(next.0),
{
    let following = phase.advance(succeeded);
    (following, following.action())
}

/// A job that still has work to do after `outcomes` is exactly as far
/// into the schedule as it has outcomes: which action comes next depends
/// on how many actions have ended, never on how they ended.
pub proof fn lemma_actions_follow_schedule(outcomes: Seq<bool>)
    ensures
        is_active(phase_after(outcomes)) ==> outcomes.len() < schedule().len() && action_of(
            phase_after(outcomes),
        ) == schedule()[outcomes.len() as int],
        phase_after(outcomes) == Phase::Done ==> outcomes.len() >= schedule().len(),
    decreases outcomes.len(),
{
    if outcomes.len() > 0 {
        lemma_actions_follow_schedule(outcomes.drop_last());
    }
}

/// Delete comes before create, always: whenever a job is about to create
/// its index, the action just before was the delete of that index, and
/// that delete may have succeeded or failed. So a job that is run again
/// never creates an index that it has not tried to delete first.
pub proof fn lemma_delete_precedes_create(outcomes: Seq<bool>)
    requires
        action_of(phase_after(outcomes)) == Action::CreateIndex,
    ensures
        outcomes.len() == 1,
        action_of(phase_after(outcomes.drop_last())) == Action::DeleteIndex,
{
    lemma_actions_follow_schedule(outcomes);
    assert(outcomes.drop_last().len() == 0);
}

/// The delete is best effort: however it ends, the create comes next.
pub proof fn lemma_delete_never_fails(succeeded: bool)
    ensures
        phase_after(seq![succeeded]) == Phase::Deleted,
        action_of(phase_after(seq![succeeded])) == Action::CreateIndex,
{
    assert(seq![succeeded].drop_last() =~= Seq::<bool>::empty());
    assert(phase_after(Seq::<bool>::empty()) == Phase::Idle);
}

/// The clock is started right before the ingest and for nothing else:
/// the action before an ingest is the start of the clock, so the time
/// measured covers neither the delete nor the create.
pub proof fn lemma_clock_covers_ingest_only(outcomes: Seq<bool>)
    requires
        action_of(phase_after(outcomes)) == Action::Ingest,
    ensures
        outcomes.len() == 3,
        action_of(phase_after(outcomes.drop_last())) == Action::StartClock,
{
    lemma_actions_follow_schedule(outcomes);
    let before = outcomes.drop_last();
    lemma_actions_follow_schedule(before);
    assert(phase_after(outcomes) == next_phase(phase_after(before), outcomes.last()));
}

/// A job that was given up stays given up, for the same reason, and a job
/// that is done stays done.
pub proof fn lemma_end_is_final(outcomes: Seq<bool>, more: Seq<bool>)
    requires
        !is_active(phase_after(outcomes)),
    ensures
        phase_after(outcomes + more) == phase_after(outcomes),
    decreases more.len(),
{
    if more.len() == 0 {
        assert(outcomes + more =~= outcomes);
    } else {
        lemma_end_is_final(outcomes, more.drop_last());
        assert((outcomes + more).drop_last() =~= outcomes + more.drop_last());
        assert((outcomes + more).last() == more.last());
    }
}

/// A result is recorded exactly when create, ingest, measurement and
/// recording all succeeded; how the delete ended and how the start of the
/// clock ended make no difference.
pub proof fn lemma_done_iff_all_succeeded(outcomes: Seq<bool>)
    requires
        outcomes.len() == schedule().len(),
    ensures
        phase_after(outcomes) == Phase::Done <==> (outcomes[1] && outcomes[3] && outcomes[4]
            && outcomes[5]),
{
    let s1 = outcomes.take(1);
    let s2 = outcomes.take(2);
    let s3 = outcomes.take(3);
    let s4 = outcomes.take(4);
    let s5 = outcomes.take(5);
    assert(s1.drop_last() =~= Seq::<bool>::empty());
    assert(s2.drop_last() =~= s1);
    assert(s3.drop_last() =~= s2);
    assert(s4.drop_last() =~= s3);
    assert(s5.drop_last() =~= s4);
    assert(outcomes.drop_last() =~= s5);
    assert(phase_after(Seq::<bool>::empty()) == Phase::Idle);
    assert(phase_after(s1) == Phase::Deleted);
    assert(phase_after(s2) == next_phase(phase_after(s1), outcomes[1]));
    assert(phase_after(s3) == next_phase(phase_after(s2), outcomes[2]));
    assert(phase_after(s4) == next_phase(phase_after(s3), outcomes[3]));
    assert(phase_after(s5) == next_phase(phase_after(s4), outcomes[4]));
    assert(phase_after(outcomes) == next_phase(phase_after(s5), outcomes[5]));
}

} // verus!
