//! Houdini: an exploit-execution harness for container escape and privilege
//! escalation techniques. This library holds the trick execution engine: the
//! status lattice, the steps of a trick and how their outcomes map to a status,
//! the sequencer that runs a trick step by step, and the reports it produces.
//! Around it stand the decisions taken on what the outside world answers:
//! version checks, image tags and digests, exit statuses, socket addresses,
//! configuration files, and the command lines of guest builds.
//!
//! Running a step acts on the outside world; that is left to the caller, which
//! hands back whether each action succeeded (see [`trick::TrickRun`]).

pub mod status;
pub mod defaults;
pub mod text;
pub mod version;
pub mod image;
pub mod steps;
pub mod report;
pub mod trick;
pub mod exec;
pub mod vsock;
pub mod config;
pub mod logging;
pub mod cli;
pub mod guest;
