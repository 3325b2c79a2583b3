//! The command interface of the indexing engine: the arguments of each
//! subcommand that the harness issues, and where the engine keeps an index.

use vstd::prelude::*;
use vstd::string::*;
use crate::config::{IndexDescriptor, JobSpec, JobSpecView};
use crate::pipeline::Action;
use crate::text::texts;

verus! {

/// Arguments of the subcommand that deletes an index.
pub open spec fn delete_command(index_id: Seq<char>) -> Seq<Seq<char>> {
    seq!["index"@, "delete"@, "--index"@, index_id, "--config=quickwit.yaml"@]
}

/// Arguments of the subcommand that creates an index from its descriptor file.
pub open spec fn create_command(index_config_path: Seq<char>) -> Seq<Seq<char>> {
    seq!["index"@, "create"@, "--index-config"@, index_config_path, "--config=quickwit.yaml"@]
}

/// Arguments of the subcommand that ingests data into an index.
pub open spec fn ingest_command(index_id: Seq<char>, data_path: Seq<char>) -> Seq<Seq<char>> {
    seq![
        "index"@,
        "ingest"@,
        "--index"@,
        index_id,
        "--config=quickwit.yaml"@,
        "--input-path"@,
        data_path,
    ]
}

/// Arguments of the subcommand that describes one split of an index.
pub open spec fn describe_split_command(index_id: Seq<char>, split_id: Seq<char>) -> Seq<
    Seq<char>,
> {
    seq![
        "split"@,
        "describe"@,
        "--index"@,
        index_id,
        "--config=quickwit.yaml"@,
        "--split"@,
        split_id,
        "--verbose"@,
    ]
}

/// The directory under which the engine keeps the indexes of a data root.
pub open spec fn indexes_root_of(data_root: Seq<char>) -> Seq<char> {
    data_root + "/indexes"@
}

/// The storage directory of one index: a subdirectory of the indexes
/// root, named by the index.
pub open spec fn index_dir_of(indexes_root: Seq<char>, index_id: Seq<char>) -> Seq<char> {
    indexes_root + "/"@ + index_id
}

/// The engine command that an action of a job stands for, `None` for an
/// action that is no engine command. The engine is always addressed by
/// the handle of the index, never by the display name of the job.
pub open spec fn command_of(action: Action, job: JobSpecView, index_id: Seq<char>) -> Option<
    Seq<Seq<char>>,
> {
    match action {
        Action::DeleteIndex => Some(delete_command(index_id)),
        Action::CreateIndex => Some(create_command(job.index_config_path)),
        Action::Ingest => Some(ingest_command(index_id, job.data_path)),
        _ => None,
    }
}

/// `args` are the arguments of `command`, or both are absent.
pub open spec fn is_command(args: Option<Vec<String>>, command: Option<Seq<Seq<char>>>) -> bool {
    match (args, command) {
        (Some(args), Some(command)) => texts(args@) == command,
        (None, None) => true,
        _ => false,
    }
}

/// The arguments that delete the index `index_id`.
pub fn delete_args(index_id: &str) -> (args: Vec<String>)
    ensures
        texts(args@) == delete_command(index_id@),
{
    let mut args: Vec<String> = Vec::new();
    args.push("index".to_owned());
    args.push("delete".to_owned());
    args.push("--index".to_owned());
    args.push(index_id.to_owned());
    args.push("--config=quickwit.yaml".to_owned());
    assert(texts(args@) =~= delete_command(index_id@));
    args
}

/// The arguments that create the index described by the file at
/// `index_config_path`.
pub fn create_args(index_config_path: &str) -> (args: Vec<String>)
    ensures
        texts(args@) == create_command(index_config_path@),
{
    let mut args: Vec<String> = Vec::new();
    args.push("index".to_owned());
    args.push("create".to_owned());
    args.push("--index-config".to_owned());
    args.push(index_config_path.to_owned());
    args.push("--config=quickwit.yaml".to_owned());
    assert(texts(args@) =~= create_command(index_config_path@));
    args
}

/// The arguments that ingest the data at `data_path` into the index `index_id`.
pub fn ingest_args(index_id: &str, data_path: &str) -> (args: Vec<String>)
    ensures
        texts(args@) == ingest_command(index_id@, data_path@),
{
    let mut args: Vec<String> = Vec::new();
    args.push("index".to_owned());
    args.push("ingest".to_owned());
    args.push("--index".to_owned());
    args.push(index_id.to_owned());
    args.push("--config=quickwit.yaml".to_owned());
    args.push("--input-path".to_owned());
    args.push(data_path.to_owned());
    assert(texts(args@) =~= ingest_command(index_id@, data_path@));
    args
}

/// The arguments that describe the split `split_id` of the index `index_id`.
pub fn describe_split_args(index_id: &str, split_id: &str) -> (args: Vec<String>)
    ensures
        texts(args@) == describe_split_command(index_id@, split_id@),
{
    let mut args: Vec<String> = Vec::new();
    args.push("split".to_owned());
    args.push("describe".to_owned());
    args.push("--index".to_owned());
    args.push(index_id.to_owned());
    args.push("--config=quickwit.yaml".to_owned());
    args.push("--split".to_owned());
    args.push(split_id.to_owned());
    args.push("--verbose".to_owned());
    assert(texts(args@) =~= describe_split_command(index_id@, split_id@));
    args
}

/// The arguments of the engine command that `action` stands for in the
/// build of `job`, `None` where the action is no engine command.
pub fn command_for(action: Action, job: &JobSpec, descriptor: &IndexDescriptor) -> (args: Option<
    Vec<String>,
>)
    ensures
        is_command(args, command_of(action, job@, descriptor@)),
{
    match action {
        Action::DeleteIndex => Some(delete_args(descriptor.index_id())),
        Action::CreateIndex => Some(create_args(job.index_config_path.as_str())),
        Action::Ingest => Some(ingest_args(descriptor.index_id(), job.data_path.as_str())),
        _ => None,
    }
}

/// The directory under which the engine keeps its indexes.
pub fn indexes_root(data_root: &str) -> (path: String)
    ensures
        path@ == indexes_root_of(data_root@),
{
    data_root.to_owned().concat("/indexes")
}

/// The storage directory of the index `index_id`.
pub fn index_dir(indexes_root: &str, index_id: &str) -> (path: String)
    ensures
        path@ == index_dir_of(indexes_root@, index_id@),
{
    indexes_root.to_owned().concat("/").concat(index_id)
}

} // verus!
