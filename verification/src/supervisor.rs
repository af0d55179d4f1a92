//! The supervisor: one renderer, replaced when the configuration changes and
//! terminated on shutdown.

use crate::config::{file_key, parse_text, ConfigStore, Configuration};
use crate::error::{report_view, Failure};
use crate::event::{Action, ActionView, Event, Reaction, ReactionView};
use crate::model::{termination_report, Model, Phase, Stage, EXIT_FATAL, EXIT_SHUTDOWN};
use crate::process::{renderer_command, ProcessHandle};
use vstd::prelude::*;

verus! {

/// The mathematical value of a reaction that may be absent.
pub open spec fn reaction_view(reaction: Option<Reaction>) -> Option<ReactionView> {
    match reaction {
        Some(r) => Some(r@),
        None => None,
    }
}

/// Supervises one renderer.
///
/// The supervisor does no work on the operating system itself. Each call of
/// [`step`](Supervisor::step) tells it what happened and returns what is to be
/// done next; the caller does that and comes back with the outcome. The
/// supervisor alone decides when a process is launched or terminated, so that
/// at most one is ever held.
pub struct Supervisor {
    stage: Stage,
    store: ConfigStore,
    process: ProcessHandle,
    target: String,
}

impl View for Supervisor {
    type V = Model;

    closed spec fn view(&self) -> Model {
        Model {
            stage: self.stage,
            config_path: self.store@.path,
            config: self.store@.entries,
            process: self.process@,
            target: self.target@,
        }
    }
}

/// A reaction without a report.
fn quiet(action: Action) -> (reaction: Option<Reaction>)
    ensures
        reaction_view(reaction) == Some(ReactionView { action: action@, report: None }),
{
    Some(Reaction { action, report: None })
}

/// A reaction that may carry a report.
fn reporting(action: Action, report: Option<Failure>) -> (reaction: Option<Reaction>)
    ensures
        reaction_view(reaction) == Some(
            ReactionView { action: action@, report: report_view(report) },
        ),
{
    Some(Reaction { action, report })
}

/// The failure to report after a termination, if it met one.
fn termination_failure(clean: bool) -> (report: Option<Failure>)
    ensures
        report_view(report) == termination_report(clean),
{
    if clean {
        None
    } else {
        Some(Failure::Terminate)
    }
}

/// Startup ends with this failure.
fn fatal(failure: Failure) -> (out: (Stage, Option<Reaction>))
    ensures
        out.0 == Stage::Failed,
        reaction_view(out.1) == Some(
            ReactionView { action: ActionView::Exit(EXIT_FATAL), report: Some(failure@) },
        ),
{
    (Stage::Failed, reporting(Action::Exit(EXIT_FATAL), Some(failure)))
}

/// The supervisor goes back to waiting for a notification.
fn waiting(report: Option<Failure>) -> (out: (Stage, Option<Reaction>))
    ensures
        out.0 == Stage::Running,
        reaction_view(out.1) == Some(
            ReactionView { action: ActionView::AwaitNotification, report: report_view(report) },
        ),
{
    (Stage::Running, reporting(Action::AwaitNotification, report))
}

/// Loads `text` into the store and returns the media file it names.
fn load_target(store: &mut ConfigStore, text: &str) -> (file: Option<String>)
    ensures
        final(store)@.path == old(store)@.path,
        final(store)@.entries == parse_text(text@),
        match file {
            Some(f) => parse_text(text@).contains_key(file_key()) && f@ == parse_text(
                text@,
            )[file_key()],
            None => !parse_text(text@).contains_key(file_key()),
        },
{
    store.load(text);
    match store.snapshot().file() {
        Some(file) => Some(file.clone()),
        None => None,
    }
}

impl Supervisor {
    #[verifier::type_invariant]
    spec fn well_formed(self) -> bool {
        self@.wf()
    }

    /// A supervisor for the configuration file at `config_path`. It has not
    /// asked for anything yet and waits for [`Event::Start`].
    pub fn new(config_path: String) -> (supervisor: Supervisor)
        ensures
            supervisor@ == Model::initial(config_path@),
    {
        Supervisor {
            stage: Stage::Idle,
            store: ConfigStore::new(config_path),
            process: ProcessHandle::new(),
            target: String::new(),
        }
    }

    /// Which answer the supervisor waits for.
    pub fn stage(&self) -> (stage: Stage)
        ensures
            stage == self@.stage,
    {
        self.stage
    }

    /// The phase the supervisor is in.
    pub fn phase(&self) -> (phase: Phase)
        ensures
            phase == self@.stage.phase(),
    {
        self.stage.phase()
    }

    /// The path of the configuration file.
    pub fn config_path(&self) -> (path: &String)
        ensures
            path@ == self@.config_path,
    {
        self.store.path()
    }

    /// What the last load found in the configuration file.
    pub fn config(&self) -> (config: &Configuration)
        ensures
            config@ == self@.config,
    {
        self.store.snapshot()
    }

    /// The media file of the launch that was decided on last; empty before
    /// the first.
    pub fn target(&self) -> (target: &String)
        ensures
            target@ == self@.target,
    {
        &self.target
    }

    /// The slot for the renderer. Whatever happened before, it holds a record
    /// only in a stage that allows one.
    pub fn process(&self) -> (process: &ProcessHandle)
        ensures
            process@ == self@.process,
            self@.wf(),
    {
        proof {
            use_type_invariant(self);
        }
        &self.process
    }

    /// The exit code, once the supervisor has left.
    pub fn exit_code(&self) -> (code: Option<i32>)
        ensures
            code == match self@.stage {
                Stage::Stopped => Some(EXIT_SHUTDOWN),
                Stage::Failed => Some(EXIT_FATAL),
                _ => None,
            },
    {
        match self.stage {
            Stage::Stopped => Some(EXIT_SHUTDOWN),
            Stage::Failed => Some(EXIT_FATAL),
            _ => None,
        }
    }

    /// The state after `event`, and the reaction to it.
    fn advance(self, event: Event) -> (out: (Supervisor, Option<Reaction>))
        ensures
            out.0@ == self@.step(event@).next,
            reaction_view(out.1) == self@.step(event@).reaction,
            self@.wf(),
    {
        proof {
            use_type_invariant(&self);
        }
        let Supervisor { stage, mut store, mut process, mut target } = self;
        let (next, reaction) = match (stage, event) {
            (Stage::Idle, Event::Start) => (
                Stage::ProbingXwinwrap,
                quiet(Action::ProbeDependency("xwinwrap".to_owned())),
            ),
            (Stage::ProbingXwinwrap, Event::DependencyProbed(found)) => {
                if found {
                    (Stage::ProbingMpv, quiet(Action::ProbeDependency("mpv".to_owned())))
                } else {
                    fatal(Failure::DependencyMissing("xwinwrap".to_owned()))
                }
            },
            (Stage::ProbingMpv, Event::DependencyProbed(found)) => {
                if found {
                    let path = store.path().clone();
                    (Stage::LoadingConfig, quiet(Action::ReadConfig { path, create_missing: true }))
                } else {
                    fatal(Failure::DependencyMissing("mpv".to_owned()))
                }
            },
            (Stage::LoadingConfig, Event::ConfigRead(read)) => {
                match read {
                    None => fatal(Failure::ConfigIo(store.path().clone())),
                    Some(text) => {
                        match load_target(&mut store, text.as_str()) {
                            Some(file) => {
                                let command = renderer_command(file.as_str());
                                target = file;
                                (Stage::Launching, quiet(Action::Launch(command)))
                            },
                            None => fatal(Failure::MissingRequiredKey(store.path().clone())),
                        }
                    },
                }
            },
            (Stage::Launching, Event::Launched(launched)) => {
                match launched {
                    Some(pid) => {
                        process.start(pid, target.clone());
                        (Stage::Watching, quiet(Action::RegisterWatch(store.path().clone())))
                    },
                    None => fatal(Failure::Launch(target.clone())),
                }
            },
            (Stage::Watching, Event::WatchRegistered(ok)) => {
                if ok {
                    waiting(None)
                } else {
                    fatal(Failure::WatchRegistration(store.path().clone()))
                }
            },
            (Stage::Running, Event::Watch(change)) => {
                if change.asks_reload() {
                    let path = store.path().clone();
                    (Stage::Reloading, quiet(Action::ReadConfig { path, create_missing: false }))
                } else {
                    waiting(None)
                }
            },
            (Stage::Running, Event::Shutdown(_)) => {
                match process.stop() {
                    Some(record) => (Stage::Stopping, quiet(Action::Terminate(record.pid()))),
                    None => (Stage::Stopped, quiet(Action::Exit(EXIT_SHUTDOWN))),
                }
            },
            (Stage::Reloading, Event::ConfigRead(read)) => {
                match read {
                    None => waiting(Some(Failure::ConfigIo(store.path().clone()))),
                    Some(text) => {
                        match load_target(&mut store, text.as_str()) {
                            Some(file) => {
                                let command = renderer_command(file.as_str());
                                target = file;
                                match process.stop() {
                                    Some(record) => (
                                        Stage::Replacing,
                                        quiet(Action::Terminate(record.pid())),
                                    ),
                                    None => (Stage::Relaunching, quiet(Action::Launch(command))),
                                }
                            },
                            None => waiting(
                                Some(Failure::MissingRequiredKey(store.path().clone())),
                            ),
                        }
                    },
                }
            },
            (Stage::Replacing, Event::Terminated(clean)) => {
                let command = renderer_command(target.as_str());
                (Stage::Relaunching, reporting(Action::Launch(command), termination_failure(clean)))
            },
            (Stage::Relaunching, Event::Launched(launched)) => {
                match launched {
                    Some(pid) => {
                        process.start(pid, target.clone());
                        waiting(None)
                    },
                    None => waiting(Some(Failure::Launch(target.clone()))),
                }
            },
            (Stage::Stopping, Event::Terminated(clean)) => (
                Stage::Stopped,
                reporting(Action::Exit(EXIT_SHUTDOWN), termination_failure(clean)),
            ),
            _ => (stage, None),
        };
        (Supervisor { stage: next, store, process, target }, reaction)
    }

    /// Tells the supervisor what happened and returns what is to be done
    /// next. An event that the supervisor does not wait for in its stage
    /// changes nothing and has no reaction.
    pub fn step(&mut self, event: Event) -> (reaction: Option<Reaction>)
        ensures
            final(self)@ == old(self)@.step(event@).next,
            reaction_view(reaction) == old(self)@.step(event@).reaction,
            old(self)@.wf(),
            final(self)@.wf(),
    {
        // The state is taken out, advanced as a whole and put back: what must
        // hold of a supervisor then holds of `self` at every moment.
        let mut current = Supervisor::new(String::new());
        core::mem::swap(self, &mut current);
        let (next, reaction) = current.advance(event);
        proof {
            use_type_invariant(&next);
        }
        *self = next;
        reaction
    }
}

} // verus!
