//! What holds of every run of the supervisor.

use crate::config::{file_key, parse_text};
use crate::error::FailureView;
use crate::event::{arbitrated, ActionView, EventView, ReactionView, ShutdownSignal, WatchEventView};
use crate::model::{Model, Outcome, Stage, EXIT_FATAL, EXIT_SHUTDOWN};
use vstd::prelude::*;

verus! {

impl Model {
    /// The state after the events, handled one at a time in the order given.
    pub open spec fn run(self, events: Seq<EventView>) -> Model
        decreases events.len(),
    {
        if events.len() == 0 {
            self
        } else {
            self.step(events[0]).next.run(events.skip(1))
        }
    }

    /// How many of the steps of a run are of the kind `counted`.
    pub open spec fn count(
        self,
        events: Seq<EventView>,
        counted: spec_fn(Model, EventView) -> bool,
    ) -> nat
        decreases events.len(),
    {
        if events.len() == 0 {
            0
        } else {
            (if counted(self, events[0]) {
                1nat
            } else {
                0nat
            }) + self.step(events[0]).next.count(events.skip(1), counted)
        }
    }

    /// The number of records held: one or none.
    pub open spec fn held(self) -> nat {
        if self.process is Some {
            1
        } else {
            0
        }
    }

    /// Whether the step asks for a launch: a call of `start`.
    pub open spec fn asks_launch(self, event: EventView) -> bool {
        self.step(event).reaction matches Some(reaction) && reaction.action is Launch
    }

    /// Whether the step asks for a termination.
    pub open spec fn asks_termination(self, event: EventView) -> bool {
        self.step(event).reaction matches Some(reaction) && reaction.action is Terminate
    }

    /// Whether the step asks for the configuration to be read.
    pub open spec fn asks_config(self, event: EventView) -> bool {
        self.step(event).reaction matches Some(reaction) && reaction.action is ReadConfig
    }

    /// Whether the step empties the slot, held or not: a call of `stop`. That
    /// is done for a shutdown request, and for a reload that found a media
    /// file.
    pub open spec fn calls_stop(self, event: EventView) -> bool {
        ||| self.stage is Running && event is Shutdown
        ||| self.stage is Reloading && (event matches EventView::ConfigRead(Some(text))
            && parse_text(text).contains_key(file_key()))
    }

    /// Whether the step puts a launched process into the slot.
    pub open spec fn adopts(self, event: EventView) -> bool {
        (self.stage is Launching || self.stage is Relaunching) && event matches EventView::Launched(
            Some(_),
        )
    }

    /// Whether the step is the answer to a launch or a termination that was
    /// asked for.
    pub open spec fn answers_operation(self, event: EventView) -> bool {
        ||| (self.stage is Launching || self.stage is Relaunching) && event is Launched
        ||| (self.stage is Replacing || self.stage is Stopping) && event is Terminated
    }

    /// The launches asked for in a run.
    pub open spec fn starts(self, events: Seq<EventView>) -> nat {
        self.count(events, |m: Model, e: EventView| m.asks_launch(e))
    }

    /// The calls of `stop` in a run.
    pub open spec fn stops(self, events: Seq<EventView>) -> nat {
        self.count(events, |m: Model, e: EventView| m.calls_stop(e))
    }

    /// The processes put into the slot in a run.
    pub open spec fn adoptions(self, events: Seq<EventView>) -> nat {
        self.count(events, |m: Model, e: EventView| m.adopts(e))
    }

    /// The terminations asked for in a run.
    pub open spec fn terminations(self, events: Seq<EventView>) -> nat {
        self.count(events, |m: Model, e: EventView| m.asks_termination(e))
    }

    /// The times the configuration was asked for in a run.
    pub open spec fn config_reads(self, events: Seq<EventView>) -> nat {
        self.count(events, |m: Model, e: EventView| m.asks_config(e))
    }
}

impl Stage {
    /// Calls of `start` minus calls of `stop` so far, for a supervisor whose
    /// startup has not failed.
    pub open spec fn started_minus_stopped(self) -> int {
        if self is Launching || self is Watching || self is Running || self is Reloading
            || self is Relaunching {
            1
        } else {
            0
        }
    }

    /// Whether a shutdown request was accepted.
    pub open spec fn shutting_down(self) -> bool {
        self is Stopping || self is Stopped
    }

    /// Whether a launch or a termination was asked for and has not been
    /// answered.
    pub open spec fn operation_in_flight(self) -> bool {
        self is Launching || self is Relaunching || self is Replacing || self is Stopping
    }
}

/// No step leads out of the states that keep the rule of the one slot.
pub proof fn lemma_step_keeps_wf(s: Model, event: EventView)
    requires
        s.wf(),
    ensures
        s.step(event).next.wf(),
{
}

/// One slot, one process: a step asks for a launch only with the slot empty
/// and no other launch under way, it asks for the termination of what the
/// slot held and of nothing else, and what it adopts or has terminated is
/// what the slot gains or loses.
pub proof fn lemma_step_accounts_for_process(s: Model, event: EventView)
    requires
        s.wf(),
    ensures
        s.asks_launch(event) ==> s.step(event).next.process is None && !(s.stage is Launching
            || s.stage is Relaunching),
        s.adopts(event) ==> s.process is None,
        s.asks_termination(event) ==> (s.process matches Some(record) && s.step(
            event,
        ).reaction->0.action == ActionView::Terminate(record.pid)),
        s.held() + (if s.adopts(event) {
            1nat
        } else {
            0nat
        }) == s.step(event).next.held() + (if s.asks_termination(event) {
            1nat
        } else {
            0nat
        }),
{
}

/// At most one process is ever held: over any run, the processes adopted are
/// those that were asked to be terminated and the one that is still held.
pub proof fn lemma_run_accounts_for_processes(s: Model, events: Seq<EventView>)
    requires
        s.wf(),
    ensures
        s.run(events).wf(),
        s.held() + s.adoptions(events) == s.run(events).held() + s.terminations(events),
    decreases events.len(),
{
    if events.len() > 0 {
        lemma_step_accounts_for_process(s, events[0]);
        lemma_run_accounts_for_processes(s.step(events[0]).next, events.skip(1));
    }
}

/// Whatever a supervisor was told since it was made, it keeps the rule of the
/// one slot, and the process it holds matches the configuration: where the
/// last load found a media file, the process was launched for that file.
pub proof fn lemma_held_process_matches_config(config_path: Seq<char>, events: Seq<EventView>)
    ensures
        ({
            let s = Model::initial(config_path).run(events);
            &&& s.wf()
            &&& (s.process matches Some(record) && s.config.contains_key(file_key()))
                ==> s.process->0.filepath == s.config[file_key()]
        }),
{
    lemma_run_accounts_for_processes(Model::initial(config_path), events);
}

/// No two operations are in flight at once: a step that asks for a launch or
/// a termination leads to a stage that waits for the answer, and until the
/// answer is there every other event is passed over.
pub proof fn lemma_one_operation_at_a_time(s: Model, event: EventView, other: EventView)
    ensures
        s.asks_launch(event) || s.asks_termination(event) ==> s.step(
            event,
        ).next.stage.operation_in_flight(),
        s.stage.operation_in_flight() && !s.answers_operation(other) ==> s.step(other) == (Outcome {
            next: s,
            reaction: None,
        }),
{
}

/// A supervisor whose startup failed stays as it is.
pub proof fn lemma_failed_is_final(s: Model, events: Seq<EventView>)
    requires
        s.stage is Failed,
    ensures
        s.run(events) == s,
    decreases events.len(),
{
    if events.len() > 0 {
        lemma_failed_is_final(s, events.skip(1));
    }
}

/// Calls of `start` and of `stop` take turns. From a supervisor whose startup
/// has not failed, over any run that does not fail either, the stage alone
/// tells by how much the one count is ahead of the other, and that is by one
/// or by nothing.
pub proof fn lemma_start_and_stop_alternate(s: Model, events: Seq<EventView>)
    requires
        !(s.stage is Failed),
        !(s.run(events).stage is Failed),
    ensures
        s.starts(events) - s.stops(events) == s.run(events).stage.started_minus_stopped()
            - s.stage.started_minus_stopped(),
    decreases events.len(),
{
    if events.len() > 0 {
        let next = s.step(events[0]).next;
        if next.stage is Failed {
            lemma_failed_is_final(next, events.skip(1));
        } else {
            lemma_start_and_stop_alternate(next, events.skip(1));
        }
    }
}

/// From waiting to the end: over any run that begins while the supervisor
/// waits for a notification and ends stopped, `stop` was called once more
/// than `start`, that is once before each launch and one last time for the
/// shutdown, and nothing is held at the end.
pub proof fn lemma_final_stop(s: Model, events: Seq<EventView>)
    requires
        s.wf(),
        s.stage is Running,
        s.run(events).stage is Stopped,
    ensures
        s.stops(events) == s.starts(events) + 1,
        s.run(events).process is None,
        s.held() + s.adoptions(events) == s.terminations(events),
{
    lemma_start_and_stop_alternate(s, events);
    lemma_run_accounts_for_processes(s, events);
}

/// Once a shutdown request was accepted nothing is reloaded: whatever comes
/// later, the configuration is not read, the slot is left alone, and neither
/// a launch nor a termination is asked for.
pub proof fn lemma_after_shutdown(s: Model, events: Seq<EventView>)
    requires
        s.stage.shutting_down(),
    ensures
        s.run(events).stage.shutting_down(),
        s.run(events).process == s.process,
        s.run(events).config == s.config,
        s.config_reads(events) == 0,
        s.starts(events) == 0,
        s.stops(events) == 0,
        s.terminations(events) == 0,
    decreases events.len(),
{
    if events.len() > 0 {
        lemma_after_shutdown(s.step(events[0]).next, events.skip(1));
    }
}

/// Of a change of the configuration file and a shutdown request that are
/// both pending, the shutdown request is handled, and the supervisor is then
/// shutting down for good.
pub proof fn lemma_shutdown_wins(s: Model, change: WatchEventView, signal: ShutdownSignal)
    requires
        s.stage is Running,
    ensures
        arbitrated(Some(change), Some(signal)) == Some(EventView::Shutdown(signal)),
        s.step(EventView::Shutdown(signal)).next.stage.shutting_down(),
{
}

/// A shutdown request ends the supervisor with code 0 after one termination
/// at most: what is held is terminated once, and whether or not that went
/// well the supervisor then leaves.
pub proof fn lemma_shutdown_completes(s: Model, signal: ShutdownSignal, clean: bool)
    requires
        s.stage is Running,
    ensures
        ({
            let asked = s.step(EventView::Shutdown(signal));
            let done = asked.next.step(EventView::Terminated(clean));
            match s.process {
                Some(record) => {
                    &&& asked.reaction == Some(
                        ReactionView { action: ActionView::Terminate(record.pid), report: None },
                    )
                    &&& asked.next == (Model { stage: Stage::Stopping, process: None, ..s })
                    &&& done.reaction matches Some(last)
                    &&& last.action == ActionView::Exit(EXIT_SHUTDOWN)
                    &&& last.report is Some <==> !clean
                    &&& done.next == (Model { stage: Stage::Stopped, process: None, ..s })
                },
                None => {
                    &&& asked.reaction == Some(
                        ReactionView { action: ActionView::Exit(EXIT_SHUTDOWN), report: None },
                    )
                    &&& asked.next == (Model { stage: Stage::Stopped, ..s })
                },
            }
        }),
{
}

/// Stopping with nothing held does nothing: a shutdown request then asks for
/// no termination, reports no failure and ends the supervisor with code 0,
/// and nothing but the stage has changed.
pub proof fn lemma_stop_without_process(s: Model, signal: ShutdownSignal)
    requires
        s.stage is Running,
        s.process is None,
    ensures
        s.step(EventView::Shutdown(signal)).next == (Model { stage: Stage::Stopped, ..s }),
        s.step(EventView::Shutdown(signal)).reaction == Some(
            ReactionView { action: ActionView::Exit(EXIT_SHUTDOWN), report: None },
        ),
{
}

/// After startup no failure is fatal: no step leads to the failed stage or
/// asks to leave with the code of a failed startup.
pub proof fn lemma_no_fatal_failure_after_startup(s: Model, event: EventView)
    requires
        !(s.stage.phase() is Starting),
        !(s.stage is Failed),
    ensures
        !(s.step(event).next.stage is Failed),
        s.step(event).reaction matches Some(reaction) ==> reaction.action != ActionView::Exit(
            EXIT_FATAL,
        ),
{
}

/// During startup every failure is fatal: a step that reports one asks to
/// leave with code 1 and leads to the failed stage.
pub proof fn lemma_failure_at_startup_is_fatal(s: Model, event: EventView)
    requires
        s.stage.phase() is Starting,
    ensures
        (s.step(event).reaction matches Some(reaction) && reaction.report is Some) ==> s.step(
            event,
        ).next.stage is Failed && s.step(event).reaction->0.action == ActionView::Exit(EXIT_FATAL),
{
}

/// A reload that finds no media file leaves the renderer alone: after the
/// change and the text that came back for it, the slot holds what it held,
/// and the supervisor waits again, having reported the missing key.
pub proof fn lemma_reload_without_file_keeps_process(
    s: Model,
    change: WatchEventView,
    text: Seq<char>,
)
    requires
        s.stage is Running,
        change.asks_reload(),
        !parse_text(text).contains_key(file_key()),
    ensures
        ({
            let reading = s.step(EventView::Watch(change)).next;
            let out = reading.step(EventView::ConfigRead(Some(text)));
            &&& reading.stage is Reloading
            &&& reading.process == s.process
            &&& out.next.process == s.process
            &&& out.next.stage is Running
            &&& out.reaction == Some(
                ReactionView {
                    action: ActionView::AwaitNotification,
                    report: Some(FailureView::MissingRequiredKey(s.config_path)),
                },
            )
        }),
{
}

/// A reload whose text cannot be had leaves the renderer alone as well.
pub proof fn lemma_reload_without_text_keeps_process(s: Model, change: WatchEventView)
    requires
        s.stage is Running,
        change.asks_reload(),
    ensures
        ({
            let reading = s.step(EventView::Watch(change)).next;
            let out = reading.step(EventView::ConfigRead(None));
            &&& out.next == s
            &&& out.reaction == Some(
                ReactionView {
                    action: ActionView::AwaitNotification,
                    report: Some(FailureView::ConfigIo(s.config_path)),
                },
            )
        }),
{
}

} // verus!
