//! Configuration: the list of indexing jobs and, for each job, the
//! descriptor of its index.
//!
//! A job list is a table with a list `indices`; each element is a table
//! with the texts `index_config` and `data_path` and, optionally, a text
//! `name`. A descriptor is a table with a non-empty text `index_id`.
//! Other keys are ignored.

use vstd::prelude::*;
use crate::document::{parse_toml, parse_yaml, toml_document, yaml_document, Node};
use crate::text::texts;

verus! {

/// Why a configuration was refused.
#[derive(Clone, Copy, Debug, PartialEq, Eq, Structural)]
pub enum ConfigError {
    /// The text is not a well-formed document.
    Malformed,
    /// The document has no list under `indices`.
    NoJobList,
    /// The element at `position` of `indices`, the first such, is not a job.
    BadJob { position: usize },
    /// The document has no text under `index_id`.
    NoIndexId,
    /// The text under `index_id` is empty.
    EmptyIndexId,
}

/// One indexing job, as configured.
#[derive(Clone, Debug, PartialEq, Eq)]
pub struct JobSpec {
    /// Display name of the run, if the job overrides it.
    pub name: Option<String>,
    /// Path of the file that describes the index.
    pub index_config_path: String,
    /// Path of the data to ingest, a file or a directory.
    pub data_path: String,
}

/// A job as plain text.
pub struct JobSpecView {
    pub name: Option<Seq<char>>,
    pub index_config_path: Seq<char>,
    pub data_path: Seq<char>,
}

impl View for JobSpec {
    type V = JobSpecView;

    open spec fn view(&self) -> JobSpecView {
        JobSpecView {
            name: match self.name {
                Some(name) => Some(name@),
                None => None,
            },
            index_config_path: self.index_config_path@,
            data_path: self.data_path@,
        }
    }
}

/// The job that an element of `indices` denotes, `None` where it denotes none.
pub open spec fn job_of(entry: Node) -> Option<JobSpecView> {
    let index_config = entry.text_field("index_config"@);
    let data_path = entry.text_field("data_path"@);
    let name = entry.text_field("name"@);
    if index_config is Some && data_path is Some && (entry.field("name"@) is None || name is Some) {
        Some(
            JobSpecView {
                name,
                index_config_path: index_config->Some_0,
                data_path: data_path->Some_0,
            },
        )
    } else {
        None
    }
}

/// The elements of the list under `indices`, where the document has one.
pub open spec fn job_entries(doc: Node) -> Option<Seq<Node>> {
    match doc.field("indices"@) {
        Some(list) => list.items(),
        None => None,
    }
}

/// `outcome` is what reading the job list of `doc` gives: the jobs of all
/// elements in their order, or the first reason to refuse the document.
pub open spec fn is_job_list_of(doc: Node, outcome: Result<Vec<JobSpec>, ConfigError>) -> bool {
    match outcome {
        Ok(jobs) => {
            &&& job_entries(doc) matches Some(entries)
            &&& jobs@.len() == entries.len()
            &&& forall|i: int| 0 <= i < entries.len() ==> job_of(#[trigger] entries[i]) == Some(jobs@[i]@)
        },
        Err(ConfigError::NoJobList) => job_entries(doc) is None,
        Err(ConfigError::BadJob { position }) => {
            &&& job_entries(doc) matches Some(entries)
            &&& position < entries.len()
            &&& job_of(entries[position as int]) is None
            &&& forall|i: int| 0 <= i < position ==> job_of(#[trigger] entries[i]) is Some
        },
        Err(_) => false,
    }
}

/// The index identifier that a descriptor document gives, or the reason
/// to refuse the document.
pub open spec fn index_id_of(doc: Node) -> Result<Seq<char>, ConfigError> {
    match doc.text_field("index_id"@) {
        None => Err(ConfigError::NoIndexId),
        Some(id) => if id.len() == 0 {
            Err(ConfigError::EmptyIndexId)
        } else {
            Ok(id)
        },
    }
}

/// The index identifier that the text of a descriptor file gives, or the
/// reason to refuse the text.
pub open spec fn index_id_of_text(text: Seq<char>) -> Result<Seq<char>, ConfigError> {
    match yaml_document(text) {
        Some(doc) => index_id_of(doc),
        None => Err(ConfigError::Malformed),
    }
}

/// The descriptor file of the job at `position` was refused for `reason`.
#[derive(Clone, Copy, Debug, PartialEq, Eq, Structural)]
pub struct DescriptorError {
    pub position: usize,
    pub reason: ConfigError,
}

/// The descriptor of an index: the handle by which the engine knows it.
/// The handle is never empty.
#[derive(Debug, PartialEq, Eq)]
pub struct IndexDescriptor {
    index_id: String,
}

impl View for IndexDescriptor {
    type V = Seq<char>;

    closed spec fn view(&self) -> Seq<char> {
        self.index_id@
    }
}

impl Clone for IndexDescriptor {
    fn clone(&self) -> (copy: IndexDescriptor)
        ensures
            copy@ == self@,
    {
        proof {
            use_type_invariant(self);
        }
        IndexDescriptor { index_id: self.index_id.clone() }
    }
}

/// `outcome` agrees with `expected`: the same identifier or the same error.
pub open spec fn is_descriptor_outcome(
    expected: Result<Seq<char>, ConfigError>,
    outcome: Result<IndexDescriptor, ConfigError>,
) -> bool {
    match (expected, outcome) {
        (Ok(id), Ok(descriptor)) => descriptor@ == id,
        (Err(wanted), Err(error)) => wanted == error,
        _ => false,
    }
}

/// `outcome` is what loading the descriptors of `texts` gives: the
/// descriptor of every text in order, or the first text that is refused
/// and the reason.
pub open spec fn is_descriptor_list_of(
    texts: Seq<Seq<char>>,
    outcome: Result<Vec<IndexDescriptor>, DescriptorError>,
) -> bool {
    match outcome {
        Ok(descriptors) => {
            &&& descriptors@.len() == texts.len()
            &&& forall|i: int|
                0 <= i < texts.len() ==> index_id_of_text(#[trigger] texts[i]) == Ok::<
                    Seq<char>,
                    ConfigError,
                >(descriptors@[i]@)
        },
        Err(error) => {
            &&& error.position < texts.len()
            &&& index_id_of_text(texts[error.position as int]) == Err::<Seq<char>, ConfigError>(
                error.reason,
            )
            &&& forall|i: int|
                0 <= i < error.position ==> index_id_of_text(#[trigger] texts[i]) is Ok
        },
    }
}

impl JobSpec {
    /// Reads one element of `indices`.
    pub fn from_node(entry: &Node) -> (job: Option<JobSpec>)
        ensures
            job matches Some(spec) ==> job_of(*entry) == Some(spec@),
            job is None ==> job_of(*entry) is None,
    {
        let index_config_path = match entry.get_text("index_config") {
            Some(path) => path,
            None => {
                return None;
            },
        };
        let data_path = match entry.get_text("data_path") {
            Some(path) => path,
            None => {
                return None;
            },
        };
        let name = match entry.get("name") {
            None => None,
            Some(Node::Text(name)) => Some(name.clone()),
            Some(_) => {
                return None;
            },
        };
        Some(JobSpec { name, index_config_path, data_path })
    }

    /// The name under which the results of the job are recorded.
    pub open spec fn display_name(self, index_id: Seq<char>) -> Seq<char> {
        match self.name {
            Some(name) => name@,
            None => index_id,
        }
    }
}

impl IndexDescriptor {
    #[verifier::type_invariant]
    spec fn well_formed(self) -> bool {
        self.index_id@.len() > 0
    }

    /// A descriptor for the given handle; an empty handle is refused.
    pub fn new(index_id: String) -> (outcome: Result<IndexDescriptor, ConfigError>)
        ensures
            index_id@.len() > 0 ==> is_descriptor_outcome(Ok(index_id@), outcome),
            index_id@.len() == 0 ==> is_descriptor_outcome(
                Err(ConfigError::EmptyIndexId),
                outcome,
            ),
    {
        if index_id.as_str().is_empty() {
            Err(ConfigError::EmptyIndexId)
        } else {
            Ok(IndexDescriptor { index_id })
        }
    }

    /// Reads a descriptor document.
    pub fn from_document(doc: &Node) -> (outcome: Result<IndexDescriptor, ConfigError>)
        ensures
            is_descriptor_outcome(index_id_of(*doc), outcome),
    {
        match doc.get_text("index_id") {
            None => Err(ConfigError::NoIndexId),
            Some(id) => IndexDescriptor::new(id),
        }
    }

    /// The handle of the index.
    pub fn index_id(&self) -> (id: &str)
        ensures
            id@ == self@,
            id@.len() > 0,
    {
        proof {
            use_type_invariant(self);
        }
        self.index_id.as_str()
    }
}

/// Reads the job list of a document: all its jobs, in the order of the
/// document, or the first reason to refuse it.
pub fn job_list_from(doc: &Node) -> (outcome: Result<Vec<JobSpec>, ConfigError>)
    ensures
        is_job_list_of(*doc, outcome),
{
    let entries = match doc.get("indices") {
        Some(Node::List(entries)) => entries,
        _ => {
            return Err(ConfigError::NoJobList);
        },
    };
    let mut jobs: Vec<JobSpec> = Vec::new();
    let mut i: usize = 0;
    while i < entries.len()
        invariant
            i <= entries.len(),
            job_entries(*doc) == Some(entries@),
            jobs@.len() == i,
            forall|j: int| 0 <= j < i ==> job_of(#[trigger] entries@[j]) == Some(jobs@[j]@),
        decreases entries.len() - i,
    {
        match JobSpec::from_node(&entries[i]) {
            Some(job) => {
                jobs.push(job);
            },
            None => {
                return Err(ConfigError::BadJob { position: i });
            },
        }
        i = i + 1;
    }
    Ok(jobs)
}

/// Loads a job list from the text of its file.
pub fn load_job_list(text: &str) -> (outcome: Result<Vec<JobSpec>, ConfigError>)
    ensures
        match toml_document(text@) {
            Some(doc) => is_job_list_of(doc, outcome),
            None => outcome == Err::<Vec<JobSpec>, ConfigError>(ConfigError::Malformed),
        },
{
    match parse_toml(text) {
        Some(doc) => job_list_from(&doc),
        None => Err(ConfigError::Malformed),
    }
}

/// Loads the descriptor of an index from the text of its file.
pub fn load_index_descriptor(text: &str) -> (outcome: Result<IndexDescriptor, ConfigError>)
    ensures
        is_descriptor_outcome(index_id_of_text(text@), outcome),
{
    match parse_yaml(text) {
        Some(doc) => IndexDescriptor::from_document(&doc),
        None => Err(ConfigError::Malformed),
    }
}

/// Loads the descriptors of all jobs from the texts of their files, so
/// that a run can refuse a bad configuration before it touches any index:
/// all descriptors in the order of the texts, or the first text that is
/// refused and why.
pub fn load_index_descriptors(files: &Vec<String>) -> (outcome: Result<
    Vec<IndexDescriptor>,
    DescriptorError,
>)
    ensures
        is_descriptor_list_of(texts(files@), outcome),
{
    let mut descriptors: Vec<IndexDescriptor> = Vec::new();
    let mut i: usize = 0;
    while i < files.len()
        invariant
            i <= files.len(),
            descriptors@.len() == i,
            forall|j: int|
                0 <= j < i ==> index_id_of_text(#[trigger] files@[j]@) == Ok::<
                    Seq<char>,
                    ConfigError,
                >(descriptors@[j]@),
        decreases files.len() - i,
    {
        match load_index_descriptor(files[i].as_str()) {
            Ok(descriptor) => {
                descriptors.push(descriptor);
            },
            Err(reason) => {
                return Err(DescriptorError { position: i, reason });
            },
        }
        i = i + 1;
    }
    Ok(descriptors)
}

/// A job list with N entries gives exactly N jobs, in the order of the
/// entries, and each job holds the texts of its entry: the entry at any
/// position and the job at that position agree field by field, and a job
/// has no name exactly where its entry has none.
pub proof fn lemma_job_list_in_source_order(doc: Node, jobs: Vec<JobSpec>, position: int)
    requires
        is_job_list_of(doc, Ok(jobs)),
        0 <= position < jobs@.len(),
    ensures
        job_entries(doc) is Some,
        job_entries(doc)->Some_0.len() == jobs@.len(),
        ({
            let entry = job_entries(doc)->Some_0[position];
            let job = jobs@[position];
            &&& entry.text_field("index_config"@) == Some(job.index_config_path@)
            &&& entry.text_field("data_path"@) == Some(job.data_path@)
            &&& job.name matches Some(name) ==> entry.text_field("name"@) == Some(name@)
            &&& job.name is None ==> entry.field("name"@) is None
        }),
{
    let entries = job_entries(doc)->Some_0;
    assert(job_of(entries[position]) == Some(jobs@[position]@));
}

/// A document has one job list outcome: two outcomes of the same document
/// are both refusals for the same reason, or hold the same jobs in the
/// same order.
pub proof fn lemma_job_list_unique(
    doc: Node,
    first: Result<Vec<JobSpec>, ConfigError>,
    second: Result<Vec<JobSpec>, ConfigError>,
)
    requires
        is_job_list_of(doc, first),
        is_job_list_of(doc, second),
    ensures
        first is Ok <==> second is Ok,
        first matches Err(error) ==> second == Err::<Vec<JobSpec>, ConfigError>(error),
        first matches Ok(jobs) ==> (second matches Ok(others) && jobs@.map_values(
            |job: JobSpec| job@,
        ) == others@.map_values(|job: JobSpec| job@)),
{
    match (first, second) {
        (Ok(jobs), Ok(others)) => {
            let entries = job_entries(doc)->Some_0;
            assert forall|i: int| 0 <= i < jobs@.len() implies jobs@[i]@ == others@[i]@ by {
                assert(job_of(entries[i]) == Some(jobs@[i]@));
                assert(job_of(entries[i]) == Some(others@[i]@));
            }
            assert(jobs@.map_values(|job: JobSpec| job@) =~= others@.map_values(
                |job: JobSpec| job@,
            ));
        },
        (Ok(jobs), Err(ConfigError::BadJob { position })) => {
            let entries = job_entries(doc)->Some_0;
            assert(job_of(entries[position as int]) == Some(jobs@[position as int]@));
        },
        (Err(ConfigError::BadJob { position }), Ok(others)) => {
            let entries = job_entries(doc)->Some_0;
            assert(job_of(entries[position as int]) == Some(others@[position as int]@));
        },
        (Err(ConfigError::BadJob { position }), Err(ConfigError::BadJob { position: other })) => {
            let entries = job_entries(doc)->Some_0;
            if position < other {
                assert(job_of(entries[position as int]) is Some);
            } else if other < position {
                assert(job_of(entries[other as int]) is Some);
            }
        },
        _ => {},
    }
}

} // verus!
