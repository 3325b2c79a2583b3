//! Benchmark harness for an indexing engine: the rules of the
//! build-measure-record pipeline.
//!
//! The crate decides and computes; it never touches a file or a process.
//! A driver loads the configuration with [`config`], then performs the
//! actions that [`run`] asks for, job by job, and reports how each one
//! ended. [`pipeline`] holds the phases of one build, [`engine`] the
//! commands of the engine, [`splits`] and [`record`] what is measured and
//! recorded, and [`log`] the format of the results log.

pub mod config;
pub mod document;
pub mod engine;
pub mod log;
pub mod pipeline;
pub mod record;
pub mod run;
pub mod splits;
pub mod text;
