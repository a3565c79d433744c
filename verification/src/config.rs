//! Configuration schema of a validation run.
//!
//! A run is configured by a deployment description of the host, a logging
//! choice, and the check buckets. Parsing the configuration text and
//! validating its schema happen outside the library; an already-validated
//! in-memory value of these types is what the engine consumes, and it is
//! read-only for the lifetime of the run.

use crate::checks::{Check, CheckKind};
use vstd::prelude::*;

verus! {

/// One bucket of parameterized checks, as a configuration section lists
/// them.
#[derive(Debug)]
pub struct CheckSet {
    pub checks: Vec<Check>,
}

impl Default for CheckSet {
    /// An absent bucket lists no checks.
    fn default() -> (r: Self)
        ensures
            r.checks@.len() == 0,
    {
        CheckSet { checks: Vec::new() }
    }
}

/// The alternate binding of checks by kind: selection and exclusion lists
/// combined with severity buckets, all naming bare check kinds.
#[derive(Debug)]
pub struct Checks {
    pub included: Vec<CheckKind>,
    pub exclude: Vec<CheckKind>,
    pub required: Vec<CheckKind>,
    pub wanted: Vec<CheckKind>,
}

impl Default for Checks {
    /// An absent section lists no kinds anywhere.
    fn default() -> (r: Self)
        ensures
            r.included@.len() == 0,
            r.exclude@.len() == 0,
            r.required@.len() == 0,
            r.wanted@.len() == 0,
    {
        Checks {
            included: Vec::new(),
            exclude: Vec::new(),
            required: Vec::new(),
            wanted: Vec::new(),
        }
    }
}

/// The whole configuration of one run: the deployment description of the
/// host, the logging choice, and the required and wanted check buckets.
#[derive(Debug)]
pub struct Config {
    pub system: System,
    pub logging: Logging,
    pub required: CheckSet,
    pub wanted: CheckSet,
}

/// The CPU architecture of the host.
#[derive(Debug, Clone, Copy, PartialEq, Eq, Structural)]
pub enum SystemArchitecture {
    X86,
    AARCH64,
}

/// The target class of the host: a data processing unit, an automotive
/// system, or the generic edge default.
#[derive(Debug, Clone, Copy, PartialEq, Eq, Structural)]
pub enum Target {
    DPU,
    Automotive,
    Edge,
}

impl Default for Target {
    /// The default target class is the generic edge device.
    fn default() -> (r: Self)
        ensures
            r == Target::Edge,
    {
        Target::Edge
    }
}

/// The deployment mode of the host, with its architecture and target class:
/// image-based, ostree-based, or a traditional install.
#[derive(Debug, Clone, Copy, PartialEq, Eq, Structural)]
pub enum System {
    Bootc { arch: SystemArchitecture, target: Target },
    Ostree { arch: SystemArchitecture, target: Target },
    Traditional { arch: SystemArchitecture, target: Target },
}

impl System {
    /// The target class this deployment carries, whatever its mode.
    pub open spec fn target_spec(&self) -> Target {
        match self {
            System::Bootc { target, .. } => *target,
            System::Ostree { target, .. } => *target,
            System::Traditional { target, .. } => *target,
        }
    }

    /// Reads the target class out of the deployment description.
    pub fn target(&self) -> (t: &Target)
        ensures
            *t == self.target_spec(),
    {
        match self {
            System::Bootc { target, .. } => target,
            System::Ostree { target, .. } => target,
            System::Traditional { target, .. } => target,
        }
    }
}

/// The verbosity of the run's structured log output.
#[derive(Debug, Clone, Copy, PartialEq, Eq, Structural)]
pub enum LogLevel {
    Debug,
    Info,
    Warn,
    Error,
}

impl Default for LogLevel {
    /// The default verbosity is `Info`.
    fn default() -> (r: Self)
        ensures
            r == LogLevel::Info,
    {
        LogLevel::Info
    }
}

/// Where and how the run logs: a basic level-and-file choice, or an
/// advanced target-and-format pair.
#[derive(Debug)]
pub enum Logging {
    Basic { level: LogLevel, output: String },
    Advanced { target: String, format: String },
}

impl Default for Logging {
    /// Without a logging section, the run logs at `Info` into the default
    /// log file.
    fn default() -> (r: Self)
        ensures
            (r matches Logging::Basic { level, output } && level == LogLevel::Info && output@
                == "/var/log/greenlight.log"@),
    {
        Logging::Basic { level: LogLevel::Info, output: default_path() }
    }
}

/// The default log file.
pub fn default_path() -> (r: String)
    ensures
        r@ == "/var/log/greenlight.log"@,
{
    "/var/log/greenlight.log".to_owned()
}

} // verus!
