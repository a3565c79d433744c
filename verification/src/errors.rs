//! Error taxonomy of the engine.
//!
//! Configuration errors and probe I/O errors are fatal to a run; a check that
//! evaluates to false is not an error and is handled by importance instead.
//! Probe collaborators report their causes as plain text, so every variant
//! carries its cause as a `String`.

use vstd::prelude::*;
use vstd::string::StringExecFns;

verus! {

/// Mathematical model of a [`GreenlightError`]: the same variants over
/// character sequences.
pub enum GreenlightErrorView {
    ConfigParse(Seq<char>),
    Io(Seq<char>),
    Dbus(Seq<char>),
    Netlink(Seq<char>),
    CheckFailed(Seq<char>),
    UnsupportedDeployment,
    Other(Seq<char>),
}

/// An error surfaced by the engine or by one of its probe collaborators.
#[derive(Debug)]
pub enum GreenlightError {
    /// The configuration text could not be parsed.
    ConfigParse(String),
    /// An I/O operation failed.
    Io(String),
    /// A query over the system IPC bus failed.
    Dbus(String),
    /// A query over the network link socket failed.
    Netlink(String),
    /// A check was evaluated and found to fail.
    CheckFailed(String),
    /// A check variant recognized by the catalog but not backed by a probe.
    UnsupportedDeployment,
    /// Any other failure.
    Other(String),
}

impl View for GreenlightError {
    type V = GreenlightErrorView;

    open spec fn view(&self) -> GreenlightErrorView {
        match self {
            GreenlightError::ConfigParse(m) => GreenlightErrorView::ConfigParse(m@),
            GreenlightError::Io(m) => GreenlightErrorView::Io(m@),
            GreenlightError::Dbus(m) => GreenlightErrorView::Dbus(m@),
            GreenlightError::Netlink(m) => GreenlightErrorView::Netlink(m@),
            GreenlightError::CheckFailed(m) => GreenlightErrorView::CheckFailed(m@),
            GreenlightError::UnsupportedDeployment => GreenlightErrorView::UnsupportedDeployment,
            GreenlightError::Other(m) => GreenlightErrorView::Other(m@),
        }
    }
}

impl Clone for GreenlightError {
    fn clone(&self) -> (r: Self)
        ensures
            r@ == self@,
    {
        match self {
            GreenlightError::ConfigParse(m) => GreenlightError::ConfigParse(m.clone()),
            GreenlightError::Io(m) => GreenlightError::Io(m.clone()),
            GreenlightError::Dbus(m) => GreenlightError::Dbus(m.clone()),
            GreenlightError::Netlink(m) => GreenlightError::Netlink(m.clone()),
            GreenlightError::CheckFailed(m) => GreenlightError::CheckFailed(m.clone()),
            GreenlightError::UnsupportedDeployment => GreenlightError::UnsupportedDeployment,
            GreenlightError::Other(m) => GreenlightError::Other(m.clone()),
        }
    }
}

impl GreenlightError {
    /// The human-readable report of this error: a fixed prefix naming the
    /// error class, followed by the cause.
    pub open spec fn message_spec(&self) -> Seq<char> {
        match self {
            GreenlightError::ConfigParse(m) => "Failed to parse configuration: "@ + m@,
            GreenlightError::Io(m) => "I/O error: "@ + m@,
            GreenlightError::Dbus(m) => "DBus error: "@ + m@,
            GreenlightError::Netlink(m) => "Netlink error: "@ + m@,
            GreenlightError::CheckFailed(m) => "Check failed: "@ + m@,
            GreenlightError::UnsupportedDeployment => "Unsupported system deployment"@,
            GreenlightError::Other(m) => "Unknown error: "@ + m@,
        }
    }

    /// Renders the error as its report line.
    pub fn message(&self) -> (r: String)
        ensures
            r@ == self.message_spec(),
    {
        match self {
            GreenlightError::ConfigParse(m) => {
                let mut s = "Failed to parse configuration: ".to_owned();
                s.append(m.as_str());
                s
            },
            GreenlightError::Io(m) => {
                let mut s = "I/O error: ".to_owned();
                s.append(m.as_str());
                s
            },
            GreenlightError::Dbus(m) => {
                let mut s = "DBus error: ".to_owned();
                s.append(m.as_str());
                s
            },
            GreenlightError::Netlink(m) => {
                let mut s = "Netlink error: ".to_owned();
                s.append(m.as_str());
                s
            },
            GreenlightError::CheckFailed(m) => {
                let mut s = "Check failed: ".to_owned();
                s.append(m.as_str());
                s
            },
            GreenlightError::UnsupportedDeployment => {
                "Unsupported system deployment".to_owned()
            },
            GreenlightError::Other(m) => {
                let mut s = "Unknown error: ".to_owned();
                s.append(m.as_str());
                s
            },
        }
    }
}

} // verus!
