//! What can go wrong while supervising, and how it is told to the user.

use vstd::prelude::*;
use vstd::string::StringExecFns;

verus! {

/// A failure met by the supervisor. Whether it ends the supervisor depends on
/// the phase in which it is met: during startup every failure but a failed
/// termination is fatal, afterwards none is.
#[derive(Clone, Debug, PartialEq, Eq)]
pub enum Failure {
    /// A required program is not on the search path.
    DependencyMissing(String),
    /// The configuration file at this path could not be created or read.
    ConfigIo(String),
    /// The configuration file at this path names no media file.
    MissingRequiredKey(String),
    /// The renderer could not be launched for this media file.
    Launch(String),
    /// The held process could not be terminated.
    Terminate,
    /// No watch could be registered on the configuration file at this path.
    WatchRegistration(String),
}

/// The mathematical value of a [`Failure`].
pub enum FailureView {
    DependencyMissing(Seq<char>),
    ConfigIo(Seq<char>),
    MissingRequiredKey(Seq<char>),
    Launch(Seq<char>),
    Terminate,
    WatchRegistration(Seq<char>),
}

impl View for Failure {
    type V = FailureView;

    open spec fn view(&self) -> FailureView {
        match self {
            Failure::DependencyMissing(name) => FailureView::DependencyMissing(name@),
            Failure::ConfigIo(path) => FailureView::ConfigIo(path@),
            Failure::MissingRequiredKey(path) => FailureView::MissingRequiredKey(path@),
            Failure::Launch(target) => FailureView::Launch(target@),
            Failure::Terminate => FailureView::Terminate,
            Failure::WatchRegistration(path) => FailureView::WatchRegistration(path@),
        }
    }
}

/// The mathematical value of a failure that may be absent.
pub open spec fn report_view(report: Option<Failure>) -> Option<FailureView> {
    match report {
        Some(failure) => Some(failure@),
        None => None,
    }
}

/// The line shown to the user for a failure. It names the resource that is
/// missing or could not be used.
pub open spec fn message_of(failure: FailureView) -> Seq<char> {
    match failure {
        FailureView::DependencyMissing(name) => "Error: "@ + name
            + " not found in PATH. Please install it and try again."@,
        FailureView::ConfigIo(path) => "Error: Failed to read config file "@ + path,
        FailureView::MissingRequiredKey(path) => "Error: No file specified in "@ + path,
        FailureView::Launch(target) => "Error: Failed to execute process for "@ + target,
        FailureView::Terminate => "Error: Failed to kill xwinwrap process"@,
        FailureView::WatchRegistration(path) => "Error: Failed to watch config file "@ + path,
    }
}

impl Failure {
    /// The line to show to the user.
    pub fn message(&self) -> (line: String)
        ensures
            line@ == message_of(self@),
    {
        match self {
            Failure::DependencyMissing(name) => {
                let mut line = String::from_str("Error: ");
                line.append(name.as_str());
                line.append(" not found in PATH. Please install it and try again.");
                line
            },
            Failure::ConfigIo(path) => {
                let mut line = String::from_str("Error: Failed to read config file ");
                line.append(path.as_str());
                line
            },
            Failure::MissingRequiredKey(path) => {
                let mut line = String::from_str("Error: No file specified in ");
                line.append(path.as_str());
                line
            },
            Failure::Launch(target) => {
                let mut line = String::from_str("Error: Failed to execute process for ");
                line.append(target.as_str());
                line
            },
            Failure::Terminate => String::from_str("Error: Failed to kill xwinwrap process"),
            Failure::WatchRegistration(path) => {
                let mut line = String::from_str("Error: Failed to watch config file ");
                line.append(path.as_str());
                line
            },
        }
    }
}

} // verus!
