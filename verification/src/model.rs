//! The supervisor as a state machine over mathematical values.

use crate::config::{file_key, parse_text};
use crate::error::FailureView;
use crate::event::{ActionView, EventView, ReactionView};
use crate::process::{command_line, ProcessRecordView};
use vstd::prelude::*;

verus! {

/// The exit code after a shutdown request was honoured.
pub const EXIT_SHUTDOWN: i32 = 0;

/// The exit code after a failure during startup.
pub const EXIT_FATAL: i32 = 1;

/// The first program that must be on the search path.
pub open spec fn xwinwrap() -> Seq<char> {
    "xwinwrap"@
}

/// The second program that must be on the search path.
pub open spec fn mpv() -> Seq<char> {
    "mpv"@
}

/// The states of the supervisor as its users see them.
#[derive(Clone, Copy, Debug, PartialEq, Eq, Structural)]
pub enum Phase {
    /// Checking the dependencies, loading the configuration, launching the
    /// first renderer, registering the watch.
    Starting,
    /// Waiting for a notification.
    Running,
    /// Replacing the renderer after the configuration file changed.
    ReloadingConfig,
    /// Terminating the renderer after a shutdown request.
    ShuttingDown,
    /// Done; the exit code is 0.
    Stopped,
    /// Startup failed; the exit code is 1.
    Failed,
}

/// Where exactly the supervisor stands: which answer it waits for.
#[derive(Clone, Copy, Debug, PartialEq, Eq, Structural)]
pub enum Stage {
    /// Nothing was asked for yet.
    Idle,
    /// Asked whether `xwinwrap` is on the search path.
    ProbingXwinwrap,
    /// Asked whether `mpv` is on the search path.
    ProbingMpv,
    /// Asked for the configuration text, for the first time.
    LoadingConfig,
    /// Asked for the first launch.
    Launching,
    /// Asked for the watch on the configuration file.
    Watching,
    /// Waiting for a notification.
    Running,
    /// Asked for the configuration text after the file changed.
    Reloading,
    /// Asked for the old renderer to be terminated before the new launch.
    Replacing,
    /// Asked for the launch that follows a change.
    Relaunching,
    /// Asked for the renderer to be terminated before leaving.
    Stopping,
    /// Left after a shutdown request.
    Stopped,
    /// Left after a failure during startup.
    Failed,
}

impl Stage {
    /// The phase that a stage belongs to.
    pub open spec fn spec_phase(self) -> Phase {
        match self {
            Stage::Idle
            | Stage::ProbingXwinwrap
            | Stage::ProbingMpv
            | Stage::LoadingConfig
            | Stage::Launching
            | Stage::Watching => Phase::Starting,
            Stage::Running => Phase::Running,
            Stage::Reloading | Stage::Replacing | Stage::Relaunching => Phase::ReloadingConfig,
            Stage::Stopping => Phase::ShuttingDown,
            Stage::Stopped => Phase::Stopped,
            Stage::Failed => Phase::Failed,
        }
    }

    /// The phase that the stage belongs to.
    #[verifier::when_used_as_spec(spec_phase)]
    pub fn phase(self) -> (phase: Phase)
        ensures
            phase == self.spec_phase(),
    {
        match self {
            Stage::Idle => Phase::Starting,
            Stage::ProbingXwinwrap => Phase::Starting,
            Stage::ProbingMpv => Phase::Starting,
            Stage::LoadingConfig => Phase::Starting,
            Stage::Launching => Phase::Starting,
            Stage::Watching => Phase::Starting,
            Stage::Running => Phase::Running,
            Stage::Reloading => Phase::ReloadingConfig,
            Stage::Replacing => Phase::ReloadingConfig,
            Stage::Relaunching => Phase::ReloadingConfig,
            Stage::Stopping => Phase::ShuttingDown,
            Stage::Stopped => Phase::Stopped,
            Stage::Failed => Phase::Failed,
        }
    }

    /// Whether no process record may be held in this stage: before the first
    /// launch has succeeded, while a launch or a termination is under way,
    /// and after the shutdown.
    pub open spec fn holds_nothing(self) -> bool {
        !(self is Watching || self is Running || self is Reloading || self is Failed)
    }
}

/// The state of the supervisor.
pub struct Model {
    /// Which answer the supervisor waits for.
    pub stage: Stage,
    /// The path of the configuration file.
    pub config_path: Seq<char>,
    /// What the last load found in the configuration file.
    pub config: Map<Seq<char>, Seq<char>>,
    /// The renderer that is held, if any.
    pub process: Option<ProcessRecordView>,
    /// The media file of the launch that was decided on last.
    pub target: Seq<char>,
}

/// The state after an event, and the reaction to it. An event that the stage
/// does not wait for has no reaction.
pub struct Outcome {
    pub next: Model,
    pub reaction: Option<ReactionView>,
}

/// The failure to report after a termination.
pub open spec fn termination_report(clean: bool) -> Option<FailureView> {
    if clean {
        None
    } else {
        Some(FailureView::Terminate)
    }
}

impl Model {
    /// The state of a supervisor that was just made.
    pub open spec fn initial(config_path: Seq<char>) -> Model {
        Model {
            stage: Stage::Idle,
            config_path,
            config: Map::empty(),
            process: None,
            target: Seq::empty(),
        }
    }

    /// What holds of every state that a supervisor can be in: a record is
    /// held only in the stages that allow one; a held record is alive and was
    /// launched for the target; and the target is the media file that the
    /// configuration names, where it names one.
    pub open spec fn wf(self) -> bool {
        &&& self.stage.holds_nothing() ==> self.process is None
        &&& self.process matches Some(record) ==> record.alive && record.filepath == self.target
        &&& self.config.contains_key(file_key()) ==> self.target == self.config[file_key()]
    }

    /// Moves to `stage` and asks for `action`.
    pub open spec fn ask(self, stage: Stage, action: ActionView) -> Outcome {
        self.ask_reporting(stage, action, None)
    }

    /// Moves to `stage`, asks for `action` and reports a failure that does
    /// not end the supervisor.
    pub open spec fn ask_reporting(
        self,
        stage: Stage,
        action: ActionView,
        report: Option<FailureView>,
    ) -> Outcome {
        Outcome {
            next: Model { stage, ..self },
            reaction: Some(ReactionView { action, report }),
        }
    }

    /// Gives up during startup.
    pub open spec fn abort(self, failure: FailureView) -> Outcome {
        self.ask_reporting(Stage::Failed, ActionView::Exit(EXIT_FATAL), Some(failure))
    }

    /// Goes back to waiting for a notification.
    pub open spec fn resume(self, report: Option<FailureView>) -> Outcome {
        self.ask_reporting(Stage::Running, ActionView::AwaitNotification, report)
    }

    /// The state with the process `pid` held, launched for the current
    /// target.
    pub open spec fn adopt(self, pid: u32) -> Model {
        Model {
            process: Some(ProcessRecordView { pid, filepath: self.target, alive: true }),
            ..self
        }
    }

    /// The first load: without a text, or without a media file in it, startup
    /// fails; else the renderer is launched for that file.
    pub open spec fn first_load(self, read: Option<Seq<char>>) -> Outcome {
        match read {
            None => self.abort(FailureView::ConfigIo(self.config_path)),
            Some(text) => {
                let config = parse_text(text);
                let loaded = Model { config, ..self };
                if config.contains_key(file_key()) {
                    let target = config[file_key()];
                    Model { target, ..loaded }.ask(
                        Stage::Launching,
                        ActionView::Launch(command_line(target)),
                    )
                } else {
                    loaded.abort(FailureView::MissingRequiredKey(self.config_path))
                }
            },
        }
    }

    /// A later load: without a text, or without a media file in it, the
    /// renderer stays as it is; else the slot is emptied, what it held is
    /// terminated, and the renderer is launched for the new file.
    pub open spec fn reload(self, read: Option<Seq<char>>) -> Outcome {
        match read {
            None => self.resume(Some(FailureView::ConfigIo(self.config_path))),
            Some(text) => {
                let config = parse_text(text);
                let loaded = Model { config, ..self };
                if config.contains_key(file_key()) {
                    let target = config[file_key()];
                    let armed = Model { target, process: None, ..loaded };
                    match self.process {
                        Some(record) => armed.ask(
                            Stage::Replacing,
                            ActionView::Terminate(record.pid),
                        ),
                        None => armed.ask(
                            Stage::Relaunching,
                            ActionView::Launch(command_line(target)),
                        ),
                    }
                } else {
                    loaded.resume(Some(FailureView::MissingRequiredKey(self.config_path)))
                }
            },
        }
    }

    /// A shutdown request: the slot is emptied and what it held is
    /// terminated; with nothing held the supervisor leaves at once.
    pub open spec fn shut_down(self) -> Outcome {
        match self.process {
            Some(record) => Model { process: None, ..self }.ask(
                Stage::Stopping,
                ActionView::Terminate(record.pid),
            ),
            None => self.ask(Stage::Stopped, ActionView::Exit(EXIT_SHUTDOWN)),
        }
    }

    /// The state after `event` and the reaction to it.
    pub open spec fn step(self, event: EventView) -> Outcome {
        match (self.stage, event) {
            (Stage::Idle, EventView::Start) => self.ask(
                Stage::ProbingXwinwrap,
                ActionView::ProbeDependency(xwinwrap()),
            ),
            (Stage::ProbingXwinwrap, EventView::DependencyProbed(found)) => if found {
                self.ask(Stage::ProbingMpv, ActionView::ProbeDependency(mpv()))
            } else {
                self.abort(FailureView::DependencyMissing(xwinwrap()))
            },
            (Stage::ProbingMpv, EventView::DependencyProbed(found)) => if found {
                self.ask(
                    Stage::LoadingConfig,
                    ActionView::ReadConfig { path: self.config_path, create_missing: true },
                )
            } else {
                self.abort(FailureView::DependencyMissing(mpv()))
            },
            (Stage::LoadingConfig, EventView::ConfigRead(read)) => self.first_load(read),
            (Stage::Launching, EventView::Launched(launched)) => match launched {
                Some(pid) => self.adopt(pid).ask(
                    Stage::Watching,
                    ActionView::RegisterWatch(self.config_path),
                ),
                None => self.abort(FailureView::Launch(self.target)),
            },
            (Stage::Watching, EventView::WatchRegistered(ok)) => if ok {
                self.resume(None)
            } else {
                self.abort(FailureView::WatchRegistration(self.config_path))
            },
            (Stage::Running, EventView::Watch(change)) => if change.asks_reload() {
                self.ask(
                    Stage::Reloading,
                    ActionView::ReadConfig { path: self.config_path, create_missing: false },
                )
            } else {
                self.resume(None)
            },
            (Stage::Running, EventView::Shutdown(_)) => self.shut_down(),
            (Stage::Reloading, EventView::ConfigRead(read)) => self.reload(read),
            (Stage::Replacing, EventView::Terminated(clean)) => self.ask_reporting(
                Stage::Relaunching,
                ActionView::Launch(command_line(self.target)),
                termination_report(clean),
            ),
            (Stage::Relaunching, EventView::Launched(launched)) => match launched {
                Some(pid) => self.adopt(pid).resume(None),
                None => self.resume(Some(FailureView::Launch(self.target))),
            },
            (Stage::Stopping, EventView::Terminated(clean)) => self.ask_reporting(
                Stage::Stopped,
                ActionView::Exit(EXIT_SHUTDOWN),
                termination_report(clean),
            ),
            _ => Outcome { next: self, reaction: None },
        }
    }
}

} // verus!
