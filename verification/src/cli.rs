//! The command-line options, as plain data.
//!
//! Argument parsing itself is an external collaborator; the surrounding
//! program validates the command line and hands the library these values.

use vstd::prelude::*;
use crate::metrics::Metric;
use crate::metrics::PullRequestTerminatingState;

verus! {

/// Global options: the repository to report on, an optional API token, and
/// the command to run.
#[derive(Clone, Debug)]
pub struct Opts {
    pub owner: String,
    pub repo: String,
    pub api_secret: Option<String>,
    pub pull_request_terminating_state: Option<PullRequestTerminatingState>,
    pub command: Commands,
}

/// The available commands.
#[derive(Clone, Debug)]
pub enum Commands {
    Solo(SoloOpts),
}

/// Options of the per-contributor report: the user to report on and, when
/// given, the single metric to print instead of the full summary.
#[derive(Clone, Debug)]
pub struct SoloOpts {
    pub user: String,
    pub metric: Option<Metric>,
}

} // verus!
