use index_bench::pipeline::{Action, BuildError, Phase};
use index_bench::run::RunState;

fn drive(jobs: usize, outcomes: &[bool]) -> (RunState, Vec<(usize, Action)>) {
    let mut state = RunState::start();
    let mut actions = vec![];
    for ok in outcomes {
        actions.push((state.job(), state.action(jobs)));
        state = state.advance(jobs, *ok);
    }
    (state, actions)
}

#[test]
fn a_run_starts_at_the_first_job_with_nothing_done() {
    let state = RunState::start();
    assert_eq!(state.job(), 0);
    assert_eq!(state.phase(), Phase::Idle);
    assert_eq!(state.action(1), Action::DeleteIndex);
}

#[test]
fn a_run_without_jobs_is_over_at_once() {
    let state = RunState::start();
    assert_eq!(state.action(0), Action::Finish);
    assert_eq!(state.advance(0, true), state);
    assert_eq!(state.advance(0, false), state);
}

#[test]
fn jobs_are_built_one_after_the_other() {
    let (state, actions) = drive(2, &[true; 12]);
    let schedule = [
        Action::DeleteIndex,
        Action::CreateIndex,
        Action::StartClock,
        Action::Ingest,
        Action::Measure,
        Action::Record,
    ];
    let mut expected = vec![];
    for job in 0..2 {
        for action in schedule {
            expected.push((job, action));
        }
    }
    assert_eq!(actions, expected);
    assert_eq!(state.job(), 2);
    assert_eq!(state.action(2), Action::Finish);
}

#[test]
fn the_next_job_starts_when_the_result_is_recorded() {
    let (state, _) = drive(3, &[true; 5]);
    assert_eq!((state.job(), state.phase()), (0, Phase::Measuring));
    let next = state.advance(3, true);
    assert_eq!((next.job(), next.phase()), (1, Phase::Idle));
    assert_eq!(next.action(3), Action::DeleteIndex);
}

#[test]
fn a_failed_job_ends_the_run() {
    let (state, actions) = drive(3, &[true, true, true, false, true, true, true]);
    assert_eq!(state.job(), 0);
    assert_eq!(state.phase(), Phase::Failed(BuildError::IngestFailed));
    assert_eq!(state.action(3), Action::Abort(BuildError::IngestFailed));
    assert_eq!(actions[4], (0, Action::Abort(BuildError::IngestFailed)));
    assert_eq!(actions[6], (0, Action::Abort(BuildError::IngestFailed)));
}

#[test]
fn a_record_that_cannot_be_written_ends_the_run() {
    let (state, _) = drive(2, &[true, true, true, true, true, false]);
    assert_eq!(state.job(), 0);
    assert_eq!(state.action(2), Action::Abort(BuildError::Persistence));
}

#[test]
fn a_failed_delete_of_a_later_job_does_not_end_the_run() {
    let (state, _) = drive(2, &[true, true, true, true, true, true, false]);
    assert_eq!((state.job(), state.phase()), (1, Phase::Deleted));
    assert_eq!(state.action(2), Action::CreateIndex);
}

#[test]
fn a_run_that_is_over_stays_over() {
    let (state, _) = drive(1, &[true; 9]);
    assert_eq!(state.job(), 1);
    assert_eq!(state.action(1), Action::Finish);
}
