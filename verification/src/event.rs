//! What the supervisor is told, and what it asks for in return.

use crate::error::{report_view, Failure, FailureView};
use crate::process::words_of;
use vstd::prelude::*;

verus! {

/// A change seen on the watched configuration file, with the path that
/// changed.
#[derive(Clone, Debug, PartialEq, Eq)]
pub enum WatchEvent {
    /// The file was created.
    Created(String),
    /// The file was written.
    Modified(String),
    /// Anything else: removal, renaming, a change of metadata.
    Other(String),
}

/// The mathematical value of a [`WatchEvent`].
pub enum WatchEventView {
    Created(Seq<char>),
    Modified(Seq<char>),
    Other(Seq<char>),
}

impl View for WatchEvent {
    type V = WatchEventView;

    open spec fn view(&self) -> WatchEventView {
        match self {
            WatchEvent::Created(path) => WatchEventView::Created(path@),
            WatchEvent::Modified(path) => WatchEventView::Modified(path@),
            WatchEvent::Other(path) => WatchEventView::Other(path@),
        }
    }
}

impl WatchEventView {
    /// Whether the change asks for the configuration to be loaded again.
    pub open spec fn asks_reload(self) -> bool {
        self is Created || self is Modified
    }

    /// The path that changed.
    pub open spec fn path(self) -> Seq<char> {
        match self {
            WatchEventView::Created(path) => path,
            WatchEventView::Modified(path) => path,
            WatchEventView::Other(path) => path,
        }
    }
}

impl WatchEvent {
    /// Whether the change asks for the configuration to be loaded again:
    /// a creation or a write does, nothing else.
    pub fn asks_reload(&self) -> (reload: bool)
        ensures
            reload == self@.asks_reload(),
    {
        match self {
            WatchEvent::Created(_) => true,
            WatchEvent::Modified(_) => true,
            WatchEvent::Other(_) => false,
        }
    }

    /// The path that changed.
    pub fn path(&self) -> (path: &String)
        ensures
            path@ == self@.path(),
    {
        match self {
            WatchEvent::Created(path) => path,
            WatchEvent::Modified(path) => path,
            WatchEvent::Other(path) => path,
        }
    }
}

/// A request of the operating system to shut down. Both are honoured alike.
#[derive(Clone, Copy, Debug, PartialEq, Eq, Structural)]
pub enum ShutdownSignal {
    Interrupt,
    Terminate,
}

/// What the supervisor is told: the outcome of the work it asked for, or a
/// notification that arrived while it waited.
#[derive(Clone, Debug, PartialEq, Eq)]
pub enum Event {
    /// The supervisor is to begin.
    Start,
    /// The probed program is on the search path, or is not.
    DependencyProbed(bool),
    /// The text of the configuration file, or `None` where the file could not
    /// be created or read.
    ConfigRead(Option<String>),
    /// The identifier of the launched process, or `None` where the launch
    /// failed.
    Launched(Option<u32>),
    /// The watch on the configuration file is in place, or could not be set.
    WatchRegistered(bool),
    /// The process has exited; `false` where terminating it met an error.
    Terminated(bool),
    /// The configuration file changed.
    Watch(WatchEvent),
    /// The operating system asks for a shutdown.
    Shutdown(ShutdownSignal),
}

/// The mathematical value of an [`Event`].
pub enum EventView {
    Start,
    DependencyProbed(bool),
    ConfigRead(Option<Seq<char>>),
    Launched(Option<u32>),
    WatchRegistered(bool),
    Terminated(bool),
    Watch(WatchEventView),
    Shutdown(ShutdownSignal),
}

impl View for Event {
    type V = EventView;

    open spec fn view(&self) -> EventView {
        match self {
            Event::Start => EventView::Start,
            Event::DependencyProbed(found) => EventView::DependencyProbed(*found),
            Event::ConfigRead(read) => EventView::ConfigRead(text_view(*read)),
            Event::Launched(pid) => EventView::Launched(*pid),
            Event::WatchRegistered(ok) => EventView::WatchRegistered(*ok),
            Event::Terminated(clean) => EventView::Terminated(*clean),
            Event::Watch(change) => EventView::Watch(change@),
            Event::Shutdown(signal) => EventView::Shutdown(*signal),
        }
    }
}

/// What the supervisor asks for. Each request but the last is answered with
/// the [`Event`] that tells its outcome; a wait is answered with the
/// notification that ended it.
#[derive(Clone, Debug, PartialEq, Eq)]
pub enum Action {
    /// Find out whether this program is on the search path.
    ProbeDependency(String),
    /// Read the configuration file at `path`. With `create_missing` the
    /// directory and an empty file are made first where they are missing.
    ReadConfig { path: String, create_missing: bool },
    /// Launch this command line: the program, then its arguments.
    Launch(Vec<String>),
    /// Watch the configuration file at this path.
    RegisterWatch(String),
    /// Terminate the process with this identifier and wait until it is gone.
    Terminate(u32),
    /// Wait for the next notification: a change of the configuration file
    /// or a shutdown request. Where both are pending, [`arbitrate`] picks.
    AwaitNotification,
    /// Leave with this exit code.
    Exit(i32),
}

/// The mathematical value of an [`Action`].
pub enum ActionView {
    ProbeDependency(Seq<char>),
    ReadConfig { path: Seq<char>, create_missing: bool },
    Launch(Seq<Seq<char>>),
    RegisterWatch(Seq<char>),
    Terminate(u32),
    AwaitNotification,
    Exit(i32),
}

impl View for Action {
    type V = ActionView;

    open spec fn view(&self) -> ActionView {
        match self {
            Action::ProbeDependency(name) => ActionView::ProbeDependency(name@),
            Action::ReadConfig { path, create_missing } => ActionView::ReadConfig {
                path: path@,
                create_missing: *create_missing,
            },
            Action::Launch(command) => ActionView::Launch(words_of(command@)),
            Action::RegisterWatch(path) => ActionView::RegisterWatch(path@),
            Action::Terminate(pid) => ActionView::Terminate(*pid),
            Action::AwaitNotification => ActionView::AwaitNotification,
            Action::Exit(code) => ActionView::Exit(*code),
        }
    }
}

/// The supervisor's answer to an event: what to do next, and the failure to
/// show to the user, if one was met.
#[derive(Clone, Debug, PartialEq, Eq)]
pub struct Reaction {
    pub action: Action,
    pub report: Option<Failure>,
}

/// The mathematical value of a [`Reaction`].
pub struct ReactionView {
    pub action: ActionView,
    pub report: Option<FailureView>,
}

impl View for Reaction {
    type V = ReactionView;

    open spec fn view(&self) -> ReactionView {
        ReactionView { action: self.action@, report: report_view(self.report) }
    }
}

/// The notification to handle next when these are pending: a shutdown request
/// goes before a change of the configuration file.
pub open spec fn arbitrated(
    watch: Option<WatchEventView>,
    shutdown: Option<ShutdownSignal>,
) -> Option<EventView> {
    match (shutdown, watch) {
        (Some(signal), _) => Some(EventView::Shutdown(signal)),
        (None, Some(change)) => Some(EventView::Watch(change)),
        (None, None) => None,
    }
}

/// The mathematical value of an event that may be absent.
pub open spec fn event_view(event: Option<Event>) -> Option<EventView> {
    match event {
        Some(e) => Some(e@),
        None => None,
    }
}

/// The mathematical value of a text that may be absent.
pub open spec fn text_view(text: Option<String>) -> Option<Seq<char>> {
    match text {
        Some(t) => Some(t@),
        None => None,
    }
}

/// The mathematical value of a watch event that may be absent.
pub open spec fn watch_view(watch: Option<WatchEvent>) -> Option<WatchEventView> {
    match watch {
        Some(change) => Some(change@),
        None => None,
    }
}

/// Picks the notification to handle next. Where both a change of the
/// configuration file and a shutdown request are pending, the shutdown
/// request is picked and the change is dropped.
pub fn arbitrate(watch: Option<WatchEvent>, shutdown: Option<ShutdownSignal>) -> (next: Option<
    Event,
>)
    ensures
        event_view(next) == arbitrated(watch_view(watch), shutdown),
{
    match shutdown {
        Some(signal) => Some(Event::Shutdown(signal)),
        None => match watch {
            Some(change) => Some(Event::Watch(change)),
            None => None,
        },
    }
}

} // verus!
