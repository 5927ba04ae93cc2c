use notes_desktop::lifecycle::{
    default_frontend, log_file_name, Action, Event, FrontendConfig, LogDirectory, LoggerState,
};
use notes_desktop::record::Severity;

fn outcome(ok: bool) -> Event {
    if ok {
        Event::Succeeded
    } else {
        Event::Failed
    }
}

/// Runs the events from the state and collects the actions asked for.
fn drive(mut state: LoggerState, events: &[Event]) -> (LoggerState, Vec<Action>) {
    let mut actions = Vec::new();
    for event in events {
        let (next, action) = state.step(*event);
        state = next;
        actions.push(action);
    }
    (state, actions)
}

/// Runs one call of the initializer as a caller would: it reports the outcome
/// that `answer` gives for each action until it is told to return.
fn call(state: LoggerState, answer: &dyn Fn(Action) -> bool) -> (LoggerState, Vec<Action>) {
    let mut state = state;
    let mut actions = Vec::new();
    let mut event = Event::Requested;
    for _ in 0..32 {
        let (next, action) = state.step(event);
        state = next;
        actions.push(action);
        if action == Action::Return {
            return (state, actions);
        }
        event = outcome(answer(action));
    }
    panic!("initialization did not come to an end");
}

fn file_config() -> FrontendConfig {
    FrontendConfig { min_level: Severity::Info, env_override: true, to_file: true }
}

fn fileless_config() -> FrontendConfig {
    FrontendConfig { min_level: Severity::Info, env_override: true, to_file: false }
}

#[test]
fn log_file_name_is_fixed() {
    assert_eq!(log_file_name(), "notes-desktop.log");
    assert_eq!(log_file_name(), log_file_name());
}

#[test]
fn new_state_is_uninitialized() {
    let state = LoggerState::new();
    assert_eq!(state, LoggerState::Uninitialized);
    assert!(!state.is_initialized());
    assert_eq!(state.destination(), None);
}

#[test]
fn default_frontend_is_informational_and_heeds_environment() {
    assert_eq!(default_frontend(true), file_config());
    assert_eq!(default_frontend(false), fileless_config());
}

#[test]
fn first_call_with_everything_working() {
    let (state, actions) = call(LoggerState::new(), &|_| true);
    assert_eq!(
        actions,
        vec![
            Action::LocateExecutable,
            Action::EnsureDirectory(LogDirectory::BesideExecutable),
            Action::ProbeAppend(LogDirectory::BesideExecutable),
            Action::EnsureDirectory(LogDirectory::BesideExecutable),
            Action::OpenWriter(LogDirectory::BesideExecutable),
            Action::KeepHandle,
            Action::InstallFrontend(file_config()),
            Action::Return,
        ]
    );
    assert_eq!(state, LoggerState::Initialized(Some(LogDirectory::BesideExecutable)));
    assert!(state.is_initialized());
    assert_eq!(state.destination(), Some(LogDirectory::BesideExecutable));
}

#[test]
fn each_step_of_the_first_call() {
    let s0 = LoggerState::new();
    let (s1, a1) = s0.step(Event::Requested);
    assert_eq!((s1, a1), (LoggerState::Locating, Action::LocateExecutable));
    let (s2, a2) = s1.step(Event::Succeeded);
    assert_eq!(
        (s2, a2),
        (
            LoggerState::PreparingCandidate(LogDirectory::BesideExecutable),
            Action::EnsureDirectory(LogDirectory::BesideExecutable)
        )
    );
    let (s3, a3) = s2.step(Event::Succeeded);
    assert_eq!(
        (s3, a3),
        (
            LoggerState::Probing(LogDirectory::BesideExecutable),
            Action::ProbeAppend(LogDirectory::BesideExecutable)
        )
    );
    let (s4, a4) = s3.step(Event::Succeeded);
    assert_eq!(
        (s4, a4),
        (
            LoggerState::PreparingDestination(LogDirectory::BesideExecutable),
            Action::EnsureDirectory(LogDirectory::BesideExecutable)
        )
    );
    let (s5, a5) = s4.step(Event::Succeeded);
    assert_eq!(
        (s5, a5),
        (
            LoggerState::OpeningWriter(LogDirectory::BesideExecutable),
            Action::OpenWriter(LogDirectory::BesideExecutable)
        )
    );
    let (s6, a6) = s5.step(Event::Succeeded);
    assert_eq!(
        (s6, a6),
        (LoggerState::KeepingHandle(LogDirectory::BesideExecutable), Action::KeepHandle)
    );
    let (s7, a7) = s6.step(Event::Succeeded);
    assert_eq!(
        (s7, a7),
        (
            LoggerState::InstallingFrontend(Some(LogDirectory::BesideExecutable)),
            Action::InstallFrontend(file_config())
        )
    );
    let (s8, a8) = s7.step(Event::Succeeded);
    assert_eq!(
        (s8, a8),
        (LoggerState::Initialized(Some(LogDirectory::BesideExecutable)), Action::Return)
    );
    for state in [s0, s1, s2, s3, s4, s5, s6, s7] {
        assert!(!state.is_initialized());
        assert_eq!(state.destination(), None);
    }
}

#[test]
fn unknown_executable_makes_temp_the_candidate() {
    let (state, actions) = call(LoggerState::new(), &|action| action != Action::LocateExecutable);
    assert_eq!(
        actions,
        vec![
            Action::LocateExecutable,
            Action::EnsureDirectory(LogDirectory::SystemTemp),
            Action::ProbeAppend(LogDirectory::SystemTemp),
            Action::EnsureDirectory(LogDirectory::SystemTemp),
            Action::OpenWriter(LogDirectory::SystemTemp),
            Action::KeepHandle,
            Action::InstallFrontend(file_config()),
            Action::Return,
        ]
    );
    assert_eq!(state.destination(), Some(LogDirectory::SystemTemp));
}

#[test]
fn denied_probe_falls_back_to_temp() {
    let denied = Action::ProbeAppend(LogDirectory::BesideExecutable);
    let (state, actions) = call(LoggerState::new(), &|action| action != denied);
    assert_eq!(
        actions,
        vec![
            Action::LocateExecutable,
            Action::EnsureDirectory(LogDirectory::BesideExecutable),
            Action::ProbeAppend(LogDirectory::BesideExecutable),
            Action::EnsureDirectory(LogDirectory::SystemTemp),
            Action::OpenWriter(LogDirectory::SystemTemp),
            Action::KeepHandle,
            Action::InstallFrontend(file_config()),
            Action::Return,
        ]
    );
    assert_eq!(state, LoggerState::Initialized(Some(LogDirectory::SystemTemp)));
}

#[test]
fn failed_directory_creation_is_advisory() {
    let (state, actions) = call(LoggerState::new(), &|action| {
        !matches!(action, Action::EnsureDirectory(_))
    });
    let (reference, expected) = call(LoggerState::new(), &|_| true);
    assert_eq!(actions, expected);
    assert_eq!(state, reference);
    assert_eq!(state.destination(), Some(LogDirectory::BesideExecutable));
}

#[test]
fn unopened_writer_disables_persistence_but_installs_frontend() {
    let (state, actions) = call(LoggerState::new(), &|action| {
        !matches!(action, Action::OpenWriter(_))
    });
    assert_eq!(
        actions,
        vec![
            Action::LocateExecutable,
            Action::EnsureDirectory(LogDirectory::BesideExecutable),
            Action::ProbeAppend(LogDirectory::BesideExecutable),
            Action::EnsureDirectory(LogDirectory::BesideExecutable),
            Action::OpenWriter(LogDirectory::BesideExecutable),
            Action::InstallFrontend(fileless_config()),
            Action::Return,
        ]
    );
    assert_eq!(state, LoggerState::Initialized(None));
    assert!(state.is_initialized());
    assert_eq!(state.destination(), None);
}

#[test]
fn every_failure_at_once_still_returns() {
    let (state, actions) = call(LoggerState::new(), &|_| false);
    assert_eq!(
        actions,
        vec![
            Action::LocateExecutable,
            Action::EnsureDirectory(LogDirectory::SystemTemp),
            Action::ProbeAppend(LogDirectory::SystemTemp),
            Action::EnsureDirectory(LogDirectory::SystemTemp),
            Action::OpenWriter(LogDirectory::SystemTemp),
            Action::InstallFrontend(fileless_config()),
            Action::Return,
        ]
    );
    assert_eq!(state, LoggerState::Initialized(None));
}

#[test]
fn failed_handle_or_frontend_does_not_stop_initialization() {
    let (state, actions) = call(LoggerState::new(), &|action| {
        !matches!(action, Action::KeepHandle | Action::InstallFrontend(_))
    });
    let (reference, expected) = call(LoggerState::new(), &|_| true);
    assert_eq!(actions, expected);
    assert_eq!(state, reference);
}

#[test]
fn second_call_does_nothing() {
    let (first, _) = call(LoggerState::new(), &|_| true);
    let (second, actions) = call(first, &|_| panic!("no work may be asked for"));
    assert_eq!(actions, vec![Action::Return]);
    assert_eq!(second, first);

    let (disabled, _) = call(LoggerState::new(), &|_| false);
    let (again, actions) = call(disabled, &|_| panic!("no work may be asked for"));
    assert_eq!(actions, vec![Action::Return]);
    assert_eq!(again, disabled);
}

#[test]
fn initialized_state_ignores_every_event() {
    for destination in [None, Some(LogDirectory::BesideExecutable), Some(LogDirectory::SystemTemp)]
    {
        let state = LoggerState::Initialized(destination);
        for event in [Event::Requested, Event::Succeeded, Event::Failed] {
            assert_eq!(state.step(event), (state, Action::Return));
        }
    }
}

#[test]
fn request_during_initialization_asks_for_nothing() {
    let both = [LogDirectory::BesideExecutable, LogDirectory::SystemTemp];
    let mut states = vec![LoggerState::Locating, LoggerState::InstallingFrontend(None)];
    for d in both {
        states.push(LoggerState::PreparingCandidate(d));
        states.push(LoggerState::Probing(d));
        states.push(LoggerState::PreparingDestination(d));
        states.push(LoggerState::OpeningWriter(d));
        states.push(LoggerState::KeepingHandle(d));
        states.push(LoggerState::InstallingFrontend(Some(d)));
    }
    for state in states {
        assert_eq!(state.step(Event::Requested), (state, Action::Return));
    }
}

#[test]
fn outcome_without_request_is_ignored() {
    let state = LoggerState::new();
    assert_eq!(state.step(Event::Succeeded), (state, Action::Return));
    assert_eq!(state.step(Event::Failed), (state, Action::Return));
}

#[test]
fn probe_in_temp_that_fails_stays_in_temp() {
    let state = LoggerState::Probing(LogDirectory::SystemTemp);
    assert_eq!(
        state.step(Event::Failed),
        (
            LoggerState::PreparingDestination(LogDirectory::SystemTemp),
            Action::EnsureDirectory(LogDirectory::SystemTemp)
        )
    );
    assert_eq!(
        state.step(Event::Succeeded),
        (
            LoggerState::PreparingDestination(LogDirectory::SystemTemp),
            Action::EnsureDirectory(LogDirectory::SystemTemp)
        )
    );
}

#[test]
fn all_outcomes_end_initialized_with_one_writer() {
    for bits in 0u32..128 {
        let flag = |i: u32| bits & (1 << i) != 0;
        let answer = |action: Action| match action {
            Action::LocateExecutable => flag(0),
            Action::EnsureDirectory(_) => flag(1),
            Action::ProbeAppend(_) => flag(2),
            Action::OpenWriter(_) => flag(3),
            Action::KeepHandle => flag(4),
            Action::InstallFrontend(_) => flag(5),
            Action::Return => flag(6),
        };
        let (state, actions) = call(LoggerState::new(), &answer);
        assert!(state.is_initialized());
        let expected = if !flag(3) {
            None
        } else if flag(0) && flag(2) {
            Some(LogDirectory::BesideExecutable)
        } else {
            Some(LogDirectory::SystemTemp)
        };
        assert_eq!(state.destination(), expected);

        let (state, more) = call(state, &answer);
        let (state, still_more) = call(state, &answer);
        assert_eq!(state.destination(), expected);
        let all: Vec<Action> =
            actions.iter().chain(more.iter()).chain(still_more.iter()).copied().collect();
        let writers = all.iter().filter(|a| matches!(a, Action::OpenWriter(_))).count();
        let handles = all.iter().filter(|a| matches!(a, Action::KeepHandle)).count();
        let probes = all
            .iter()
            .filter(|a| {
                matches!(
                    a,
                    Action::LocateExecutable | Action::EnsureDirectory(_) | Action::ProbeAppend(_)
                )
            })
            .count();
        assert_eq!(writers, 1);
        assert_eq!(handles, if flag(3) { 1 } else { 0 });
        assert_eq!(probes, 4);
        assert_eq!(more, vec![Action::Return]);
        assert_eq!(still_more, vec![Action::Return]);
    }
}

#[test]
fn stray_events_never_reopen_the_writer() {
    let events = [
        Event::Succeeded,
        Event::Requested,
        Event::Requested,
        Event::Failed,
        Event::Requested,
        Event::Succeeded,
        Event::Failed,
        Event::Succeeded,
        Event::Requested,
        Event::Succeeded,
        Event::Succeeded,
        Event::Succeeded,
        Event::Requested,
        Event::Failed,
        Event::Succeeded,
    ];
    let (state, actions) = drive(LoggerState::new(), &events);
    assert_eq!(
        actions,
        vec![
            Action::Return,
            Action::LocateExecutable,
            Action::Return,
            Action::EnsureDirectory(LogDirectory::SystemTemp),
            Action::Return,
            Action::ProbeAppend(LogDirectory::SystemTemp),
            Action::EnsureDirectory(LogDirectory::SystemTemp),
            Action::OpenWriter(LogDirectory::SystemTemp),
            Action::Return,
            Action::KeepHandle,
            Action::InstallFrontend(file_config()),
            Action::Return,
            Action::Return,
            Action::Return,
            Action::Return,
        ]
    );
    assert_eq!(state, LoggerState::Initialized(Some(LogDirectory::SystemTemp)));
}
