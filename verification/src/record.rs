//! The result of one build: what was measured, when, where and of what.

use vstd::prelude::*;
use crate::config::{IndexDescriptor, JobSpec};
use crate::splits::SplitDetails;

verus! {

/// The text that `chrono` prints for the UTC date and time that lies the
/// given number of seconds, and nanoseconds within the second, after the
/// start of 1970. `None` where `chrono` has no such date.
pub uninterp spec fn utc_date_text(secs: i64, nanos: u32) -> Option<Seq<char>>;

/// Whole milliseconds of a duration of `secs` seconds and `subsec_nanos`
/// nanoseconds, reduced to 64 bits.
pub open spec fn millis_of(secs: u64, subsec_nanos: u32) -> int {
    (secs * 1000 + subsec_nanos / 1_000_000) % 0x1_0000_0000_0000_0000
}

/// Builds the UTC date of a timestamp with `chrono::DateTime::from_timestamp`
/// and prints it with its `Display`. The contract names the printed text
/// and says that there is none exactly where `from_timestamp` gives no date.
#[verifier::external_body]
fn utc_date_string(secs: i64, nanos: u32) -> (text: Option<String>)
    ensures
        text matches Some(date) ==> utc_date_text(secs, nanos) == Some(date@),
        text is None ==> utc_date_text(secs, nanos) is None,
{
    match chrono::DateTime::from_timestamp(secs, nanos) {
        Some(date) => Some(date.to_string()),
        None => None,
    }
}

/// The moment of a run, as a timestamp and as the date that it denotes.
#[derive(Debug, PartialEq, Eq)]
pub struct RunStamp {
    secs: i64,
    nanos: u32,
    date: String,
}

impl RunStamp {
    #[verifier::type_invariant]
    spec fn well_formed(self) -> bool {
        utc_date_text(self.secs, self.nanos) == Some(self.date@)
    }

    /// Seconds since the start of 1970.
    pub closed spec fn secs(self) -> i64 {
        self.secs
    }

    /// Nanoseconds within the second.
    pub closed spec fn nanos(self) -> u32 {
        self.nanos
    }

    /// The date in words.
    pub closed spec fn date(self) -> Seq<char> {
        self.date@
    }

    /// The stamp of the given moment, `None` where the moment has no date.
    pub fn at(secs: i64, nanos: u32) -> (stamp: Option<RunStamp>)
        ensures
            stamp is Some <==> utc_date_text(secs, nanos) is Some,
            stamp matches Some(s) ==> s.secs() == secs && s.nanos() == nanos && Some(s.date())
                == utc_date_text(secs, nanos),
    {
        match utc_date_string(secs, nanos) {
            Some(date) => Some(RunStamp { secs, nanos, date }),
            None => None,
        }
    }

    /// Seconds since the start of 1970.
    pub fn timestamp(&self) -> (secs: i64)
        ensures
            secs == self.secs(),
    {
        self.secs
    }

    /// The date in words, as `chrono` prints the moment of the stamp.
    pub fn date_text(&self) -> (date: &str)
        ensures
            date@ == self.date(),
            Some(date@) == utc_date_text(self.secs(), self.nanos()),
    {
        proof {
            use_type_invariant(self);
        }
        self.date.as_str()
    }
}

/// What all results of one run have in common.
#[derive(Debug)]
pub struct RunInfo {
    /// Name of the machine that runs the benchmark.
    pub machine_name: String,
    /// Revision of the engine under test.
    pub commit_hash: String,
    /// Version of the compiler that built the engine.
    pub rustc_version: String,
    /// When the run started.
    pub stamp: RunStamp,
}

/// What was measured of one build.
#[derive(Clone, Copy, Debug, PartialEq, Eq, Structural)]
pub struct Measurement {
    /// Whole seconds that the ingest took.
    pub ingest_secs: u64,
    /// Nanoseconds beyond the whole seconds, below one second.
    pub ingest_subsec_nanos: u32,
    /// Size of the index on disk.
    pub index_size_in_bytes: u64,
    /// Size of the input on disk.
    pub input_size_in_bytes: u64,
    /// The splits of the index.
    pub split_info: SplitDetails,
}

/// The record of one build, as it goes to the log. The two ratios that
/// the log also holds are derived from these fields when the record is
/// written.
#[derive(Debug, PartialEq, Eq)]
pub struct BuildIndexResult {
    pub index_id: String,
    pub indexing_time_ms: u64,
    pub index_size_in_bytes: u64,
    pub input_size_in_bytes: u64,
    pub split_info: SplitDetails,
    pub commit_hash: String,
    pub run_date_ts: i64,
    pub run_date: String,
    pub machine_name: String,
    pub rustc_version: String,
}

/// `result` is the record of the build of `job`, whose index the engine
/// knows as `index_id`, in the run `run`, with the measurement `measured`.
pub open spec fn is_result_of(
    result: BuildIndexResult,
    job: JobSpec,
    index_id: Seq<char>,
    run: RunInfo,
    measured: Measurement,
) -> bool {
    &&& result.index_id@ == job.display_name(index_id)
    &&& result.indexing_time_ms == millis_of(measured.ingest_secs, measured.ingest_subsec_nanos)
    &&& result.index_size_in_bytes == measured.index_size_in_bytes
    &&& result.input_size_in_bytes == measured.input_size_in_bytes
    &&& result.split_info == measured.split_info
    &&& result.commit_hash@ == run.commit_hash@
    &&& result.run_date_ts == run.stamp.secs()
    &&& result.run_date@ == run.stamp.date()
    &&& Some(result.run_date@) == utc_date_text(run.stamp.secs(), run.stamp.nanos())
    &&& result.machine_name@ == run.machine_name@
    &&& result.rustc_version@ == run.rustc_version@
}

/// Whole milliseconds of a duration, reduced to 64 bits.
pub fn indexing_time_ms(secs: u64, subsec_nanos: u32) -> (millis: u64)
    ensures
        millis == millis_of(secs, subsec_nanos),
        secs * 1000 + subsec_nanos / 1_000_000 <= u64::MAX ==> millis == secs * 1000 + subsec_nanos
            / 1_000_000,
{
    let seconds: u128 = secs as u128;
    let rest: u128 = (subsec_nanos / 1_000_000) as u128;
    let total: u128 = seconds * 1000 + rest;
    let reduced: u128 = total % 0x1_0000_0000_0000_0000u128;
    reduced as u64
}

/// The name under which the results of a job are recorded: the name that
/// the job gives itself or, where it gives none, the handle of its index.
pub fn display_name(job: &JobSpec, descriptor: &IndexDescriptor) -> (name: String)
    ensures
        name@ == job.display_name(descriptor@),
{
    match &job.name {
        Some(name) => name.clone(),
        None => descriptor.index_id().to_owned(),
    }
}

/// The record of one build.
pub fn build_result(
    job: &JobSpec,
    descriptor: &IndexDescriptor,
    run: &RunInfo,
    measured: &Measurement,
) -> (result: BuildIndexResult)
    ensures
        is_result_of(result, *job, descriptor@, *run, *measured),
{
    BuildIndexResult {
        index_id: display_name(job, descriptor),
        indexing_time_ms: indexing_time_ms(measured.ingest_secs, measured.ingest_subsec_nanos),
        index_size_in_bytes: measured.index_size_in_bytes,
        input_size_in_bytes: measured.input_size_in_bytes,
        split_info: measured.split_info,
        commit_hash: run.commit_hash.clone(),
        run_date_ts: run.stamp.timestamp(),
        run_date: run.stamp.date_text().to_owned(),
        machine_name: run.machine_name.clone(),
        rustc_version: run.rustc_version.clone(),
    }
}

} // verus!
