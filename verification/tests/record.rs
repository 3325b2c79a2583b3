use index_bench::config::{IndexDescriptor, JobSpec};
use index_bench::record::{
    build_result, display_name, indexing_time_ms, BuildIndexResult, Measurement, RunInfo, RunStamp,
};
use index_bench::splits::SplitDetails;

fn run_info() -> RunInfo {
    RunInfo {
        machine_name: "bench-1".to_string(),
        commit_hash: "abc1234".to_string(),
        rustc_version: "rustc 1.60.0".to_string(),
        stamp: RunStamp::at(1431648000, 0).unwrap(),
    }
}

fn job(name: Option<&str>) -> JobSpec {
    JobSpec {
        name: name.map(|n| n.to_string()),
        index_config_path: "events.yaml".to_string(),
        data_path: "events.json".to_string(),
    }
}

#[test]
fn end_to_end_record_of_one_job() {
    let descriptor = IndexDescriptor::new("events-v2".to_string()).unwrap();
    let measured = Measurement {
        ingest_secs: 2,
        ingest_subsec_nanos: 0,
        index_size_in_bytes: 400,
        input_size_in_bytes: 1000,
        split_info: SplitDetails { num_splits: 3 },
    };
    let result = build_result(&job(Some("events")), &descriptor, &run_info(), &measured);
    assert_eq!(
        result,
        BuildIndexResult {
            index_id: "events".to_string(),
            indexing_time_ms: 2000,
            index_size_in_bytes: 400,
            input_size_in_bytes: 1000,
            split_info: SplitDetails { num_splits: 3 },
            commit_hash: "abc1234".to_string(),
            run_date_ts: 1431648000,
            run_date: "2015-05-15 00:00:00 UTC".to_string(),
            machine_name: "bench-1".to_string(),
            rustc_version: "rustc 1.60.0".to_string(),
        }
    );
    let compression_ratio = result.index_size_in_bytes as f32 / result.input_size_in_bytes as f32;
    assert_eq!(compression_ratio, 0.4);
    let throughput_mbs = result.input_size_in_bytes as f32 / 1_000_000.0 / 2.0f32;
    assert_eq!(throughput_mbs, 0.0005);
}

#[test]
fn record_goes_by_the_index_id_where_the_job_has_no_name() {
    let descriptor = IndexDescriptor::new("events-v2".to_string()).unwrap();
    assert_eq!(display_name(&job(None), &descriptor), "events-v2");
    assert_eq!(display_name(&job(Some("events")), &descriptor), "events");
    assert_eq!(display_name(&job(Some("")), &descriptor), "");
}

#[test]
fn indexing_time_is_in_whole_milliseconds() {
    assert_eq!(indexing_time_ms(2, 0), 2000);
    assert_eq!(indexing_time_ms(0, 0), 0);
    assert_eq!(indexing_time_ms(0, 999_999), 0);
    assert_eq!(indexing_time_ms(0, 1_000_000), 1);
    assert_eq!(indexing_time_ms(1, 999_999_999), 1999);
    assert_eq!(indexing_time_ms(18_446_744_073_709_551, 615_000_000), u64::MAX);
}

#[test]
fn indexing_time_wraps_at_64_bits() {
    assert_eq!(indexing_time_ms(18_446_744_073_709_551, 616_000_000), 0);
    assert_eq!(indexing_time_ms(u64::MAX, 0), u64::MAX.wrapping_mul(1000));
    assert_eq!(indexing_time_ms(u64::MAX, 999_999_999), u64::MAX.wrapping_mul(1000).wrapping_add(999));
}

#[test]
fn run_stamp_prints_the_utc_date_of_its_timestamp() {
    let stamp = RunStamp::at(1431648000, 0).unwrap();
    assert_eq!(stamp.timestamp(), 1431648000);
    assert_eq!(stamp.date_text(), "2015-05-15 00:00:00 UTC");
    let epoch = RunStamp::at(0, 500_000_000).unwrap();
    assert_eq!(epoch.date_text(), "1970-01-01 00:00:00.500 UTC");
    let before = RunStamp::at(-1, 0).unwrap();
    assert_eq!(before.date_text(), "1969-12-31 23:59:59 UTC");
}

#[test]
fn run_stamp_has_no_date_out_of_range() {
    assert_eq!(RunStamp::at(i64::MAX, 0), None);
    assert_eq!(RunStamp::at(i64::MIN, 0), None);
    assert_eq!(RunStamp::at(0, u32::MAX), None);
}

#[test]
fn zero_sizes_and_zero_duration_are_recorded_as_they_are() {
    let descriptor = IndexDescriptor::new("empty".to_string()).unwrap();
    let measured = Measurement {
        ingest_secs: 0,
        ingest_subsec_nanos: 0,
        index_size_in_bytes: 50,
        input_size_in_bytes: 0,
        split_info: SplitDetails { num_splits: 0 },
    };
    let result = build_result(&job(None), &descriptor, &run_info(), &measured);
    assert_eq!(result.index_id, "empty");
    assert_eq!(result.indexing_time_ms, 0);
    assert_eq!(result.input_size_in_bytes, 0);
    assert_eq!(result.index_size_in_bytes, 50);
    let ratio = result.index_size_in_bytes as f32 / result.input_size_in_bytes as f32;
    assert!(!ratio.is_finite());
}
