use index_bench::pipeline::{step, Action, BuildError, Phase};

fn run(outcomes: &[bool]) -> (Phase, Vec<Action>) {
    let mut phase = Phase::Idle;
    let mut actions = vec![phase.action()];
    for ok in outcomes {
        let (next, action) = step(phase, *ok);
        phase = next;
        actions.push(action);
    }
    (phase, actions)
}

#[test]
fn a_build_that_succeeds_goes_through_every_phase() {
    let (phase, actions) = run(&[true, true, true, true, true, true]);
    assert_eq!(phase, Phase::Done);
    assert_eq!(
        actions,
        vec![
            Action::DeleteIndex,
            Action::CreateIndex,
            Action::StartClock,
            Action::Ingest,
            Action::Measure,
            Action::Record,
            Action::Finish,
        ]
    );
}

#[test]
fn phases_follow_each_other_in_order() {
    assert_eq!(Phase::Idle.advance(true), Phase::Deleted);
    assert_eq!(Phase::Deleted.advance(true), Phase::Created);
    assert_eq!(Phase::Created.advance(true), Phase::Ingesting);
    assert_eq!(Phase::Ingesting.advance(true), Phase::Ingested);
    assert_eq!(Phase::Ingested.advance(true), Phase::Measuring);
    assert_eq!(Phase::Measuring.advance(true), Phase::Done);
}

#[test]
fn a_failed_delete_does_not_stop_the_build() {
    assert_eq!(step(Phase::Idle, false), (Phase::Deleted, Action::CreateIndex));
    let (phase, _) = run(&[false, true, true, true, true, true]);
    assert_eq!(phase, Phase::Done);
}

#[test]
fn a_second_run_deletes_before_it_creates() {
    for _ in 0..2 {
        let (_, actions) = run(&[true, true]);
        assert_eq!(actions[0], Action::DeleteIndex);
        assert_eq!(actions[1], Action::CreateIndex);
    }
}

#[test]
fn a_failed_create_ends_the_build() {
    assert_eq!(
        step(Phase::Deleted, false),
        (Phase::Failed(BuildError::CreateFailed), Action::Abort(BuildError::CreateFailed))
    );
}

#[test]
fn a_failed_ingest_ends_the_build() {
    assert_eq!(
        step(Phase::Ingesting, false),
        (Phase::Failed(BuildError::IngestFailed), Action::Abort(BuildError::IngestFailed))
    );
}

#[test]
fn a_missing_index_directory_ends_the_build() {
    assert_eq!(
        step(Phase::Ingested, false),
        (Phase::Failed(BuildError::Filesystem), Action::Abort(BuildError::Filesystem))
    );
}

#[test]
fn a_log_that_cannot_be_written_ends_the_build() {
    assert_eq!(
        step(Phase::Measuring, false),
        (Phase::Failed(BuildError::Persistence), Action::Abort(BuildError::Persistence))
    );
}

#[test]
fn the_clock_starts_right_before_the_ingest() {
    assert_eq!(Phase::Created.action(), Action::StartClock);
    assert_eq!(step(Phase::Created, true), (Phase::Ingesting, Action::Ingest));
    assert_eq!(step(Phase::Created, false), (Phase::Ingesting, Action::Ingest));
}

#[test]
fn the_end_is_final() {
    assert_eq!(step(Phase::Done, false), (Phase::Done, Action::Finish));
    assert_eq!(step(Phase::Done, true), (Phase::Done, Action::Finish));
    let failed = Phase::Failed(BuildError::IngestFailed);
    assert_eq!(step(failed, true), (failed, Action::Abort(BuildError::IngestFailed)));
    let (phase, _) = run(&[true, false, true, true, true, true, true]);
    assert_eq!(phase, Phase::Failed(BuildError::CreateFailed));
}

#[test]
fn only_unfinished_phases_are_active() {
    assert!(Phase::Idle.is_active());
    assert!(Phase::Measuring.is_active());
    assert!(!Phase::Done.is_active());
    assert!(!Phase::Failed(BuildError::Filesystem).is_active());
}
