use index_bench::config::{IndexDescriptor, JobSpec};
use index_bench::engine::{
    command_for, create_args, delete_args, describe_split_args, index_dir, indexes_root,
    ingest_args,
};
use index_bench::pipeline::{Action, BuildError};

fn job() -> (JobSpec, IndexDescriptor) {
    (
        JobSpec {
            name: Some("events".to_string()),
            index_config_path: "configs/hdfs.yaml".to_string(),
            data_path: "data/hdfs.json".to_string(),
        },
        IndexDescriptor::new("hdfs-logs".to_string()).unwrap(),
    )
}

#[test]
fn delete_command_names_the_index() {
    assert_eq!(
        delete_args("hdfs-logs"),
        vec!["index", "delete", "--index", "hdfs-logs", "--config=quickwit.yaml"]
    );
}

#[test]
fn create_command_names_the_descriptor_file() {
    assert_eq!(
        create_args("configs/hdfs.yaml"),
        vec!["index", "create", "--index-config", "configs/hdfs.yaml", "--config=quickwit.yaml"]
    );
}

#[test]
fn ingest_command_names_index_and_input() {
    assert_eq!(
        ingest_args("hdfs-logs", "data/hdfs.json"),
        vec![
            "index",
            "ingest",
            "--index",
            "hdfs-logs",
            "--config=quickwit.yaml",
            "--input-path",
            "data/hdfs.json"
        ]
    );
}

#[test]
fn describe_command_names_index_and_split() {
    assert_eq!(
        describe_split_args("hdfs-logs", "01FZ3"),
        vec![
            "split",
            "describe",
            "--index",
            "hdfs-logs",
            "--config=quickwit.yaml",
            "--split",
            "01FZ3",
            "--verbose"
        ]
    );
}

#[test]
fn engine_is_addressed_by_handle_not_by_display_name() {
    let (spec, descriptor) = job();
    assert_eq!(command_for(Action::DeleteIndex, &spec, &descriptor), Some(delete_args("hdfs-logs")));
    assert_eq!(
        command_for(Action::CreateIndex, &spec, &descriptor),
        Some(create_args("configs/hdfs.yaml"))
    );
    assert_eq!(
        command_for(Action::Ingest, &spec, &descriptor),
        Some(ingest_args("hdfs-logs", "data/hdfs.json"))
    );
}

#[test]
fn other_actions_are_no_engine_commands() {
    let (spec, descriptor) = job();
    assert_eq!(command_for(Action::StartClock, &spec, &descriptor), None);
    assert_eq!(command_for(Action::Measure, &spec, &descriptor), None);
    assert_eq!(command_for(Action::Record, &spec, &descriptor), None);
    assert_eq!(command_for(Action::Finish, &spec, &descriptor), None);
    assert_eq!(command_for(Action::Abort(BuildError::IngestFailed), &spec, &descriptor), None);
}

#[test]
fn index_directory_lies_under_the_indexes_root() {
    assert_eq!(indexes_root("./qwdata"), "./qwdata/indexes");
    assert_eq!(index_dir("./qwdata/indexes", "hdfs-logs"), "./qwdata/indexes/hdfs-logs");
    assert_eq!(index_dir(&indexes_root(""), ""), "/indexes/");
}
