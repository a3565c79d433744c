//! Command-line selections that shape one validation run.

use vstd::prelude::*;

verus! {

/// The severity binding of a check, and the run-only-this selection `All`.
/// A check's failure affects the overall verdict according to its
/// importance; `All` selects both severities when filtering a run.
#[derive(Debug, Clone, Copy, PartialEq, Eq, Structural)]
pub enum Importance {
    Required,
    Wanted,
    All,
}

/// The command-line arguments of one run: an optional configuration file
/// path, and which importance level of checks to run.
#[derive(Debug)]
pub struct Args {
    pub config_path: Option<String>,
    pub only: Importance,
}

} // verus!
