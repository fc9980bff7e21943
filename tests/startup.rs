use app_lib::startup::{fatal_message, replay, BuildMode, Command, Event, Phase, Runner, Severity};

#[test]
fn new_runner_is_unconfigured() {
    let r = Runner::new(BuildMode::Debug);
    assert_eq!(r.phase(), Phase::Unconfigured);
    assert_eq!(r.mode(), BuildMode::Debug);
    let r = Runner::new(BuildMode::Release);
    assert_eq!(r.phase(), Phase::Unconfigured);
    assert_eq!(r.mode(), BuildMode::Release);
}

#[test]
fn debug_begin_asks_for_info_logging() {
    let mut r = Runner::new(BuildMode::Debug);
    assert_eq!(r.handle(Event::Begin), Command::RegisterLogging { level: Severity::Info });
    assert_eq!(r.phase(), Phase::Configuring);
}

#[test]
fn debug_registration_then_event_loop() {
    let mut r = Runner::new(BuildMode::Debug);
    r.handle(Event::Begin);
    assert_eq!(r.handle(Event::LoggingRegistered), Command::StartEventLoop);
    assert_eq!(r.phase(), Phase::Running);
    assert_eq!(r.handle(Event::LoopExited), Command::Finish);
    assert_eq!(r.phase(), Phase::Terminated);
}

#[test]
fn release_starts_loop_without_logging() {
    let mut r = Runner::new(BuildMode::Release);
    assert_eq!(r.handle(Event::Begin), Command::StartEventLoop);
    assert_eq!(r.phase(), Phase::Running);
}

#[test]
fn release_trace_has_no_registration() {
    let events = vec![
        Event::Begin,
        Event::LoggingRegistered,
        Event::LoggingRejected,
        Event::LoopExited,
    ];
    let cs = replay(BuildMode::Release, &events);
    assert_eq!(
        cs,
        vec![Command::StartEventLoop, Command::Ignore, Command::Ignore, Command::Finish]
    );
    assert!(cs.iter().all(|c| !matches!(c, Command::RegisterLogging { .. })));
}

#[test]
fn debug_trace_registers_exactly_once_before_loop() {
    let events = vec![
        Event::Begin,
        Event::Begin,
        Event::LoggingRegistered,
        Event::Begin,
        Event::LoopExited,
    ];
    let cs = replay(BuildMode::Debug, &events);
    assert_eq!(
        cs,
        vec![
            Command::RegisterLogging { level: Severity::Info },
            Command::Ignore,
            Command::StartEventLoop,
            Command::Ignore,
            Command::Finish,
        ]
    );
    let registrations = cs
        .iter()
        .filter(|c| matches!(c, Command::RegisterLogging { .. }))
        .count();
    assert_eq!(registrations, 1);
}

#[test]
fn rejected_registration_never_starts_loop() {
    let events = vec![
        Event::Begin,
        Event::LoggingRejected,
        Event::LoggingRegistered,
        Event::Begin,
        Event::LoopFailed,
    ];
    let cs = replay(BuildMode::Debug, &events);
    assert_eq!(
        cs,
        vec![
            Command::RegisterLogging { level: Severity::Info },
            Command::AbandonSetup,
            Command::Ignore,
            Command::Ignore,
            Command::Ignore,
        ]
    );
    assert!(!cs.contains(&Command::StartEventLoop));
}

#[test]
fn rejected_registration_terminates_runner() {
    let mut r = Runner::new(BuildMode::Debug);
    r.handle(Event::Begin);
    assert_eq!(r.handle(Event::LoggingRejected), Command::AbandonSetup);
    assert_eq!(r.phase(), Phase::Terminated);
    assert_eq!(r.handle(Event::LoggingRegistered), Command::Ignore);
    assert_eq!(r.phase(), Phase::Terminated);
}

#[test]
fn failed_loop_aborts_in_both_modes() {
    for (mode, events) in [
        (BuildMode::Debug, vec![Event::Begin, Event::LoggingRegistered, Event::LoopFailed]),
        (BuildMode::Release, vec![Event::Begin, Event::LoopFailed]),
    ] {
        let cs = replay(mode, &events);
        assert_eq!(cs.last(), Some(&Command::Abort));
    }
}

#[test]
fn fatal_message_text() {
    assert_eq!(fatal_message(), "error while running tauri application");
    assert!(fatal_message().contains("error while running tauri application"));
}

#[test]
fn events_before_begin_are_ignored() {
    let mut r = Runner::new(BuildMode::Debug);
    assert_eq!(r.handle(Event::LoggingRegistered), Command::Ignore);
    assert_eq!(r.handle(Event::LoopFailed), Command::Ignore);
    assert_eq!(r.phase(), Phase::Unconfigured);
}

#[test]
fn terminated_runner_stays_terminated() {
    let mut r = Runner::new(BuildMode::Release);
    r.handle(Event::Begin);
    assert_eq!(r.handle(Event::LoopExited), Command::Finish);
    assert_eq!(r.handle(Event::Begin), Command::Ignore);
    assert_eq!(r.handle(Event::LoopFailed), Command::Ignore);
    assert_eq!(r.phase(), Phase::Terminated);
}

#[test]
fn replay_of_no_events_is_empty() {
    assert!(replay(BuildMode::Debug, &Vec::new()).is_empty());
    assert!(replay(BuildMode::Release, &Vec::new()).is_empty());
}
