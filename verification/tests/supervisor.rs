use topaz::error::Failure;
use topaz::event::{arbitrate, Action, Event, Reaction, ShutdownSignal, WatchEvent};
use topaz::model::{Phase, Stage, EXIT_FATAL, EXIT_SHUTDOWN};
use topaz::process::renderer_command;
use topaz::supervisor::Supervisor;

const CONFIG: &str = "/home/u/.config/topaz/topaz.conf";

fn quiet(action: Action) -> Option<Reaction> {
    Some(Reaction { action, report: None })
}

fn reporting(action: Action, failure: Failure) -> Option<Reaction> {
    Some(Reaction { action, report: Some(failure) })
}

fn modified() -> Event {
    Event::Watch(WatchEvent::Modified(CONFIG.to_string()))
}

fn read(text: &str) -> Event {
    Event::ConfigRead(Some(text.to_string()))
}

/// A supervisor that waits for a notification and holds process `pid`,
/// launched for `/media/x.mp4`.
fn running(pid: u32) -> Supervisor {
    let mut supervisor = Supervisor::new(CONFIG.to_string());
    supervisor.step(Event::Start);
    supervisor.step(Event::DependencyProbed(true));
    supervisor.step(Event::DependencyProbed(true));
    supervisor.step(read("file=/media/x.mp4"));
    supervisor.step(Event::Launched(Some(pid)));
    let reaction = supervisor.step(Event::WatchRegistered(true));
    assert_eq!(reaction, quiet(Action::AwaitNotification));
    supervisor
}

#[test]
fn new_supervisor_has_asked_for_nothing() {
    let supervisor = Supervisor::new(CONFIG.to_string());
    assert_eq!(supervisor.stage(), Stage::Idle);
    assert_eq!(supervisor.phase(), Phase::Starting);
    assert_eq!(supervisor.config_path().as_str(), CONFIG);
    assert_eq!(supervisor.config().len(), 0);
    assert!(!supervisor.process().is_running());
    assert_eq!(supervisor.target().as_str(), "");
    assert_eq!(supervisor.exit_code(), None);
}

#[test]
fn startup_asks_for_each_piece_of_work_in_turn() {
    let mut supervisor = Supervisor::new(CONFIG.to_string());
    assert_eq!(
        supervisor.step(Event::Start),
        quiet(Action::ProbeDependency("xwinwrap".to_string()))
    );
    assert_eq!(supervisor.stage(), Stage::ProbingXwinwrap);
    assert_eq!(
        supervisor.step(Event::DependencyProbed(true)),
        quiet(Action::ProbeDependency("mpv".to_string()))
    );
    assert_eq!(supervisor.stage(), Stage::ProbingMpv);
    assert_eq!(
        supervisor.step(Event::DependencyProbed(true)),
        quiet(Action::ReadConfig { path: CONFIG.to_string(), create_missing: true })
    );
    assert_eq!(supervisor.stage(), Stage::LoadingConfig);
    assert_eq!(
        supervisor.step(read("file=/media/x.mp4")),
        quiet(Action::Launch(renderer_command("/media/x.mp4")))
    );
    assert_eq!(supervisor.stage(), Stage::Launching);
    assert!(!supervisor.process().is_running());
    assert_eq!(
        supervisor.step(Event::Launched(Some(100))),
        quiet(Action::RegisterWatch(CONFIG.to_string()))
    );
    assert_eq!(supervisor.stage(), Stage::Watching);
    assert_eq!(supervisor.phase(), Phase::Starting);
    assert_eq!(supervisor.process().pid(), Some(100));
    assert_eq!(supervisor.step(Event::WatchRegistered(true)), quiet(Action::AwaitNotification));
    assert_eq!(supervisor.stage(), Stage::Running);
    assert_eq!(supervisor.phase(), Phase::Running);
    assert_eq!(supervisor.process().record().unwrap().filepath().as_str(), "/media/x.mp4");
}

#[test]
fn end_to_end_launch_reload_and_interrupt() {
    let mut supervisor = Supervisor::new(CONFIG.to_string());
    let mut launches: Vec<Vec<String>> = Vec::new();
    let mut terminations: Vec<u32> = Vec::new();
    let mut exit = None;
    let events = vec![
        Event::Start,
        Event::DependencyProbed(true),
        Event::DependencyProbed(true),
        read("file=/media/x.mp4"),
        Event::Launched(Some(100)),
        Event::WatchRegistered(true),
        modified(),
        read("file=/media/y.mp4"),
        Event::Terminated(true),
        Event::Launched(Some(101)),
        Event::Shutdown(ShutdownSignal::Interrupt),
        Event::Terminated(true),
    ];
    for event in events {
        let reaction = supervisor.step(event).unwrap();
        assert_eq!(reaction.report, None);
        match reaction.action {
            Action::Launch(command) => launches.push(command),
            Action::Terminate(pid) => terminations.push(pid),
            Action::Exit(code) => exit = Some(code),
            _ => {}
        }
    }
    assert_eq!(
        launches,
        vec![renderer_command("/media/x.mp4"), renderer_command("/media/y.mp4")]
    );
    assert_eq!(launches[0].last().unwrap(), "/media/x.mp4");
    assert_eq!(launches[1].last().unwrap(), "/media/y.mp4");
    assert_eq!(terminations, vec![100, 101]);
    assert_eq!(exit, Some(0));
    assert_eq!(supervisor.stage(), Stage::Stopped);
    assert_eq!(supervisor.phase(), Phase::Stopped);
    assert_eq!(supervisor.exit_code(), Some(EXIT_SHUTDOWN));
    assert!(!supervisor.process().is_running());
}

#[test]
fn reload_stops_the_old_process_before_the_new_launch() {
    let mut supervisor = running(100);
    assert_eq!(
        supervisor.step(modified()),
        quiet(Action::ReadConfig { path: CONFIG.to_string(), create_missing: false })
    );
    assert_eq!(supervisor.phase(), Phase::ReloadingConfig);
    assert_eq!(supervisor.process().pid(), Some(100));
    assert_eq!(supervisor.step(read("file=/media/y.mp4")), quiet(Action::Terminate(100)));
    assert_eq!(supervisor.stage(), Stage::Replacing);
    assert_eq!(supervisor.target().as_str(), "/media/y.mp4");
    assert_eq!(supervisor.process().pid(), None);
    assert_eq!(
        supervisor.step(Event::Terminated(true)),
        quiet(Action::Launch(renderer_command("/media/y.mp4")))
    );
    assert_eq!(supervisor.stage(), Stage::Relaunching);
    assert_eq!(supervisor.process().pid(), None);
    assert_eq!(supervisor.step(Event::Launched(Some(101))), quiet(Action::AwaitNotification));
    assert_eq!(supervisor.stage(), Stage::Running);
    assert_eq!(supervisor.process().pid(), Some(101));
    assert_eq!(supervisor.process().record().unwrap().filepath().as_str(), "/media/y.mp4");
    assert_eq!(
        supervisor.config().file(),
        Some(supervisor.process().record().unwrap().filepath())
    );
}

#[test]
fn created_file_asks_for_a_reload_too() {
    let mut supervisor = running(100);
    assert_eq!(
        supervisor.step(Event::Watch(WatchEvent::Created(CONFIG.to_string()))),
        quiet(Action::ReadConfig { path: CONFIG.to_string(), create_missing: false })
    );
    assert_eq!(supervisor.stage(), Stage::Reloading);
}

#[test]
fn other_change_asks_for_no_reload() {
    let mut supervisor = running(100);
    assert_eq!(
        supervisor.step(Event::Watch(WatchEvent::Other(CONFIG.to_string()))),
        quiet(Action::AwaitNotification)
    );
    assert_eq!(supervisor.stage(), Stage::Running);
    assert_eq!(supervisor.process().pid(), Some(100));
}

#[test]
fn watch_event_tells_its_kind_and_path() {
    let created = WatchEvent::Created("a".to_string());
    let modified = WatchEvent::Modified("b".to_string());
    let other = WatchEvent::Other("c".to_string());
    assert!(created.asks_reload());
    assert!(modified.asks_reload());
    assert!(!other.asks_reload());
    assert_eq!(created.path().as_str(), "a");
    assert_eq!(modified.path().as_str(), "b");
    assert_eq!(other.path().as_str(), "c");
}

#[test]
fn reload_without_file_key_keeps_the_process() {
    let mut supervisor = running(100);
    let before = supervisor.process().pid();
    supervisor.step(modified());
    assert_eq!(
        supervisor.step(read("# file=/media/y.mp4\nvolume=3")),
        reporting(Action::AwaitNotification, Failure::MissingRequiredKey(CONFIG.to_string()))
    );
    assert_eq!(supervisor.process().pid(), before);
    assert_eq!(supervisor.process().pid(), Some(100));
    assert_eq!(supervisor.process().record().unwrap().filepath().as_str(), "/media/x.mp4");
    assert_eq!(supervisor.stage(), Stage::Running);
    assert!(!supervisor.config().contains_key("file"));
    assert!(supervisor.config().contains_key("volume"));
}

#[test]
fn reload_with_unreadable_file_keeps_the_process() {
    let mut supervisor = running(100);
    supervisor.step(modified());
    assert_eq!(
        supervisor.step(Event::ConfigRead(None)),
        reporting(Action::AwaitNotification, Failure::ConfigIo(CONFIG.to_string()))
    );
    assert_eq!(supervisor.process().pid(), Some(100));
    assert_eq!(supervisor.stage(), Stage::Running);
    assert_eq!(supervisor.config().file().map(|f| f.as_str()), Some("/media/x.mp4"));
}

#[test]
fn failed_launch_on_reload_leaves_no_process() {
    let mut supervisor = running(100);
    supervisor.step(modified());
    supervisor.step(read("file=/media/y.mp4"));
    supervisor.step(Event::Terminated(true));
    assert_eq!(
        supervisor.step(Event::Launched(None)),
        reporting(Action::AwaitNotification, Failure::Launch("/media/y.mp4".to_string()))
    );
    assert_eq!(supervisor.stage(), Stage::Running);
    assert_eq!(supervisor.process().pid(), None);
    assert_eq!(supervisor.exit_code(), None);
}

#[test]
fn reload_with_nothing_held_launches_at_once() {
    let mut supervisor = running(100);
    supervisor.step(modified());
    supervisor.step(read("file=/media/y.mp4"));
    supervisor.step(Event::Terminated(true));
    supervisor.step(Event::Launched(None));
    supervisor.step(modified());
    assert_eq!(
        supervisor.step(read("file=/media/z.mp4")),
        quiet(Action::Launch(renderer_command("/media/z.mp4")))
    );
    assert_eq!(supervisor.stage(), Stage::Relaunching);
    assert_eq!(supervisor.step(Event::Launched(Some(102))), quiet(Action::AwaitNotification));
    assert_eq!(supervisor.process().pid(), Some(102));
}

#[test]
fn failed_termination_is_reported_and_not_fatal() {
    let mut supervisor = running(100);
    supervisor.step(modified());
    supervisor.step(read("file=/media/y.mp4"));
    assert_eq!(
        supervisor.step(Event::Terminated(false)),
        reporting(Action::Launch(renderer_command("/media/y.mp4")), Failure::Terminate)
    );
    assert_eq!(supervisor.process().pid(), None);
    supervisor.step(Event::Launched(Some(101)));
    supervisor.step(Event::Shutdown(ShutdownSignal::Terminate));
    assert_eq!(
        supervisor.step(Event::Terminated(false)),
        reporting(Action::Exit(0), Failure::Terminate)
    );
    assert_eq!(supervisor.stage(), Stage::Stopped);
    assert_eq!(supervisor.exit_code(), Some(0));
}

#[test]
fn shutdown_stops_the_process_once_and_leaves_with_zero() {
    for signal in [ShutdownSignal::Interrupt, ShutdownSignal::Terminate] {
        let mut supervisor = running(100);
        assert_eq!(supervisor.step(Event::Shutdown(signal)), quiet(Action::Terminate(100)));
        assert_eq!(supervisor.stage(), Stage::Stopping);
        assert_eq!(supervisor.phase(), Phase::ShuttingDown);
        assert_eq!(supervisor.process().pid(), None);
        assert_eq!(supervisor.step(Event::Terminated(true)), quiet(Action::Exit(0)));
        assert_eq!(supervisor.stage(), Stage::Stopped);
        assert_eq!(supervisor.exit_code(), Some(0));
    }
}

#[test]
fn shutdown_with_nothing_held_asks_for_no_termination() {
    let mut supervisor = running(100);
    supervisor.step(modified());
    supervisor.step(read("file=/media/y.mp4"));
    supervisor.step(Event::Terminated(true));
    supervisor.step(Event::Launched(None));
    assert_eq!(
        supervisor.step(Event::Shutdown(ShutdownSignal::Interrupt)),
        quiet(Action::Exit(0))
    );
    assert_eq!(supervisor.stage(), Stage::Stopped);
}

#[test]
fn shutdown_goes_before_a_pending_change() {
    let change = WatchEvent::Modified(CONFIG.to_string());
    assert_eq!(
        arbitrate(Some(change.clone()), Some(ShutdownSignal::Terminate)),
        Some(Event::Shutdown(ShutdownSignal::Terminate))
    );
    assert_eq!(
        arbitrate(None, Some(ShutdownSignal::Interrupt)),
        Some(Event::Shutdown(ShutdownSignal::Interrupt))
    );
    assert_eq!(arbitrate(Some(change.clone()), None), Some(Event::Watch(change)));
    assert_eq!(arbitrate(None, None), None);
}

#[test]
fn nothing_is_reloaded_after_the_shutdown() {
    let mut supervisor = running(100);
    let change = WatchEvent::Modified(CONFIG.to_string());
    let next = arbitrate(Some(change), Some(ShutdownSignal::Interrupt)).unwrap();
    assert_eq!(supervisor.step(next), quiet(Action::Terminate(100)));
    assert_eq!(supervisor.step(modified()), None);
    assert_eq!(supervisor.step(read("file=/media/y.mp4")), None);
    assert_eq!(supervisor.stage(), Stage::Stopping);
    assert_eq!(supervisor.step(Event::Terminated(true)), quiet(Action::Exit(0)));
    assert_eq!(supervisor.step(modified()), None);
    assert_eq!(supervisor.step(Event::Shutdown(ShutdownSignal::Interrupt)), None);
    assert_eq!(supervisor.step(Event::Launched(Some(7))), None);
    assert_eq!(supervisor.stage(), Stage::Stopped);
    assert_eq!(supervisor.process().pid(), None);
}

#[test]
fn starts_and_stops_take_turns_over_many_changes() {
    let mut supervisor = running(1);
    let mut held = 1;
    let mut starts = 1;
    let mut stops = 0;
    for round in 0..25u32 {
        assert_eq!(
            supervisor.step(modified()),
            quiet(Action::ReadConfig { path: CONFIG.to_string(), create_missing: false })
        );
        let target = format!("/media/{}.mp4", round);
        let reaction = supervisor.step(read(&format!("file={}", target)));
        assert_eq!(reaction, quiet(Action::Terminate(held)));
        stops += 1;
        assert_eq!(supervisor.process().pid(), None);
        let reaction = supervisor.step(Event::Terminated(true));
        assert_eq!(reaction, quiet(Action::Launch(renderer_command(&target))));
        starts += 1;
        assert_eq!(starts, stops + 1);
        held = 100 + round;
        assert_eq!(supervisor.step(Event::Launched(Some(held))), quiet(Action::AwaitNotification));
        assert_eq!(supervisor.process().pid(), Some(held));
    }
    assert_eq!(
        supervisor.step(Event::Shutdown(ShutdownSignal::Terminate)),
        quiet(Action::Terminate(held))
    );
    stops += 1;
    assert_eq!(supervisor.step(Event::Terminated(true)), quiet(Action::Exit(0)));
    assert_eq!(starts, 26);
    assert_eq!(stops, 26);
}

#[test]
fn missing_xwinwrap_is_fatal() {
    let mut supervisor = Supervisor::new(CONFIG.to_string());
    supervisor.step(Event::Start);
    assert_eq!(
        supervisor.step(Event::DependencyProbed(false)),
        reporting(Action::Exit(1), Failure::DependencyMissing("xwinwrap".to_string()))
    );
    assert_eq!(supervisor.stage(), Stage::Failed);
    assert_eq!(supervisor.phase(), Phase::Failed);
    assert_eq!(supervisor.exit_code(), Some(EXIT_FATAL));
}

#[test]
fn missing_mpv_is_fatal() {
    let mut supervisor = Supervisor::new(CONFIG.to_string());
    supervisor.step(Event::Start);
    supervisor.step(Event::DependencyProbed(true));
    assert_eq!(
        supervisor.step(Event::DependencyProbed(false)),
        reporting(Action::Exit(1), Failure::DependencyMissing("mpv".to_string()))
    );
    assert_eq!(supervisor.exit_code(), Some(1));
}

#[test]
fn unreadable_config_at_startup_is_fatal() {
    let mut supervisor = Supervisor::new(CONFIG.to_string());
    supervisor.step(Event::Start);
    supervisor.step(Event::DependencyProbed(true));
    supervisor.step(Event::DependencyProbed(true));
    assert_eq!(
        supervisor.step(Event::ConfigRead(None)),
        reporting(Action::Exit(1), Failure::ConfigIo(CONFIG.to_string()))
    );
    assert_eq!(supervisor.stage(), Stage::Failed);
}

#[test]
fn config_without_file_key_at_startup_is_fatal() {
    let mut supervisor = Supervisor::new(CONFIG.to_string());
    supervisor.step(Event::Start);
    supervisor.step(Event::DependencyProbed(true));
    supervisor.step(Event::DependencyProbed(true));
    assert_eq!(
        supervisor.step(read("")),
        reporting(Action::Exit(1), Failure::MissingRequiredKey(CONFIG.to_string()))
    );
    assert_eq!(supervisor.stage(), Stage::Failed);
    assert_eq!(supervisor.process().pid(), None);
}

#[test]
fn failed_first_launch_is_fatal() {
    let mut supervisor = Supervisor::new(CONFIG.to_string());
    supervisor.step(Event::Start);
    supervisor.step(Event::DependencyProbed(true));
    supervisor.step(Event::DependencyProbed(true));
    supervisor.step(read("file=/media/x.mp4"));
    assert_eq!(
        supervisor.step(Event::Launched(None)),
        reporting(Action::Exit(1), Failure::Launch("/media/x.mp4".to_string()))
    );
    assert_eq!(supervisor.stage(), Stage::Failed);
    assert_eq!(supervisor.process().pid(), None);
}

#[test]
fn failed_watch_registration_is_fatal() {
    let mut supervisor = Supervisor::new(CONFIG.to_string());
    supervisor.step(Event::Start);
    supervisor.step(Event::DependencyProbed(true));
    supervisor.step(Event::DependencyProbed(true));
    supervisor.step(read("file=/media/x.mp4"));
    supervisor.step(Event::Launched(Some(100)));
    assert_eq!(
        supervisor.step(Event::WatchRegistered(false)),
        reporting(Action::Exit(1), Failure::WatchRegistration(CONFIG.to_string()))
    );
    assert_eq!(supervisor.stage(), Stage::Failed);
    assert_eq!(supervisor.exit_code(), Some(1));
}

#[test]
fn failed_supervisor_answers_nothing() {
    let mut supervisor = Supervisor::new(CONFIG.to_string());
    supervisor.step(Event::Start);
    supervisor.step(Event::DependencyProbed(false));
    assert_eq!(supervisor.step(Event::Start), None);
    assert_eq!(supervisor.step(modified()), None);
    assert_eq!(supervisor.step(Event::Shutdown(ShutdownSignal::Interrupt)), None);
    assert_eq!(supervisor.stage(), Stage::Failed);
}

#[test]
fn event_that_is_not_awaited_changes_nothing() {
    let mut supervisor = Supervisor::new(CONFIG.to_string());
    assert_eq!(supervisor.step(modified()), None);
    assert_eq!(supervisor.step(Event::Launched(Some(5))), None);
    assert_eq!(supervisor.stage(), Stage::Idle);
    assert_eq!(supervisor.process().pid(), None);
    let mut supervisor = running(100);
    assert_eq!(supervisor.step(Event::Start), None);
    assert_eq!(supervisor.step(Event::Launched(Some(5))), None);
    assert_eq!(supervisor.step(Event::Terminated(true)), None);
    assert_eq!(supervisor.step(read("file=/media/y.mp4")), None);
    assert_eq!(supervisor.stage(), Stage::Running);
    assert_eq!(supervisor.process().pid(), Some(100));
    assert_eq!(supervisor.config().file().map(|f| f.as_str()), Some("/media/x.mp4"));
}

#[test]
fn stages_belong_to_their_phases() {
    assert_eq!(Stage::Idle.phase(), Phase::Starting);
    assert_eq!(Stage::ProbingXwinwrap.phase(), Phase::Starting);
    assert_eq!(Stage::ProbingMpv.phase(), Phase::Starting);
    assert_eq!(Stage::LoadingConfig.phase(), Phase::Starting);
    assert_eq!(Stage::Launching.phase(), Phase::Starting);
    assert_eq!(Stage::Watching.phase(), Phase::Starting);
    assert_eq!(Stage::Running.phase(), Phase::Running);
    assert_eq!(Stage::Reloading.phase(), Phase::ReloadingConfig);
    assert_eq!(Stage::Replacing.phase(), Phase::ReloadingConfig);
    assert_eq!(Stage::Relaunching.phase(), Phase::ReloadingConfig);
    assert_eq!(Stage::Stopping.phase(), Phase::ShuttingDown);
    assert_eq!(Stage::Stopped.phase(), Phase::Stopped);
    assert_eq!(Stage::Failed.phase(), Phase::Failed);
}
