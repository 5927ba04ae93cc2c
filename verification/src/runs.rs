//! Runs of the lifecycle: what holds along every sequence of events.

use crate::lifecycle::{
    candidate_directory, destination_directory, frontend_config, Action, Event, LogDirectory,
    LoggerState,
};
use vstd::prelude::*;

verus! {

/// The state reached from `state` after the events, taken in order.
pub open spec fn run(state: LoggerState, events: Seq<Event>) -> LoggerState
    decreases events.len(),
{
    if events.len() == 0 {
        state
    } else {
        run(state.next(events[0]).0, events.drop_first())
    }
}

/// The actions asked for from `state` along the events, one for each event.
pub open spec fn asked(state: LoggerState, events: Seq<Event>) -> Seq<Action>
    decreases events.len(),
{
    if events.len() == 0 {
        Seq::<Action>::empty()
    } else {
        seq![state.next(events[0]).1] + asked(state.next(events[0]).0, events.drop_first())
    }
}

/// How many of the actions are requests to open a writer.
pub open spec fn writers_opened(actions: Seq<Action>) -> nat
    decreases actions.len(),
{
    if actions.len() == 0 {
        0
    } else {
        writers_opened(actions.drop_first()) + if actions[0] is OpenWriter {
            1nat
        } else {
            0nat
        }
    }
}

/// Whether an action touches the file system to find or test a directory:
/// locating the executable, creating a directory, probing the log file.
pub open spec fn probes_directory(action: Action) -> bool {
    action is LocateExecutable || action is EnsureDirectory || action is ProbeAppend
}

/// How many of the actions find or test a directory.
pub open spec fn directory_probes(actions: Seq<Action>) -> nat
    decreases actions.len(),
{
    if actions.len() == 0 {
        0
    } else {
        directory_probes(actions.drop_first()) + if probes_directory(actions[0]) {
            1nat
        } else {
            0nat
        }
    }
}

/// How many of the actions are requests to store a writer's handle.
pub open spec fn handles_kept(actions: Seq<Action>) -> nat
    decreases actions.len(),
{
    if actions.len() == 0 {
        0
    } else {
        handles_kept(actions.drop_first()) + if actions[0] is KeepHandle {
            1nat
        } else {
            0nat
        }
    }
}

/// The event that reports an outcome.
pub open spec fn outcome(succeeded: bool) -> Event {
    if succeeded {
        Event::Succeeded
    } else {
        Event::Failed
    }
}

/// How each piece of work turned out during the call that initializes.
pub struct Outcomes {
    /// The directory of the executable was found.
    pub executable_located: bool,
    /// The candidate directory was created or was there.
    pub candidate_created: bool,
    /// The log file could be opened for appending in the candidate directory.
    pub probe_passed: bool,
    /// The destination directory was created or was there.
    pub destination_created: bool,
    /// The writer could be opened in the destination directory.
    pub writer_opened: bool,
    /// The writer's handle was stored.
    pub handle_kept: bool,
    /// The frontend was installed.
    pub frontend_installed: bool,
}

impl Outcomes {
    /// The directory tried first.
    pub open spec fn candidate(self) -> LogDirectory {
        candidate_directory(self.executable_located)
    }

    /// The directory in which the writer is opened.
    pub open spec fn destination(self) -> LogDirectory {
        destination_directory(self.candidate(), self.probe_passed)
    }

    /// The directory of the log file after initialization; `None` when no
    /// writer could be opened.
    pub open spec fn persisted_in(self) -> Option<LogDirectory> {
        if self.writer_opened {
            Some(self.destination())
        } else {
            None
        }
    }

    /// The events of the first call of the initializer: the request, then the
    /// outcome of each action in the order in which the actions are asked for.
    /// No handle is stored where no writer was opened.
    pub open spec fn events(self) -> Seq<Event> {
        let head = seq![
            Event::Requested,
            outcome(self.executable_located),
            outcome(self.candidate_created),
            outcome(self.probe_passed),
            outcome(self.destination_created),
            outcome(self.writer_opened),
        ];
        if self.writer_opened {
            head + seq![outcome(self.handle_kept), outcome(self.frontend_installed)]
        } else {
            head + seq![outcome(self.frontend_installed)]
        }
    }

    /// The actions of the first call of the initializer.
    pub open spec fn actions(self) -> Seq<Action> {
        let head = seq![
            Action::LocateExecutable,
            Action::EnsureDirectory(self.candidate()),
            Action::ProbeAppend(self.candidate()),
            Action::EnsureDirectory(self.destination()),
            Action::OpenWriter(self.destination()),
        ];
        if self.writer_opened {
            head + seq![
                Action::KeepHandle,
                Action::InstallFrontend(frontend_config(true)),
                Action::Return,
            ]
        } else {
            head + seq![Action::InstallFrontend(frontend_config(false)), Action::Return]
        }
    }
}

/// A step either changes nothing and asks for nothing, or takes initialization
/// to a later stage: there is no way back, and no work without progress.
pub proof fn lemma_step_progress(state: LoggerState, event: Event)
    ensures
        state.next(event).0 == state || state.next(event).0.stage() > state.stage(),
        !(state.next(event).1 is Return) ==> state.next(event).0.stage() > state.stage(),
        state.next(event).0 == state ==> state.next(event).1 is Return,
        state.next(event).0.stage() <= 8,
{
}

/// Running on joins runs: the events `first + rest` lead where `rest` leads
/// from the state that `first` reaches, and ask for the actions of both.
pub proof fn lemma_run_append(state: LoggerState, first: Seq<Event>, rest: Seq<Event>)
    ensures
        run(state, first + rest) == run(run(state, first), rest),
        asked(state, first + rest) == asked(state, first) + asked(run(state, first), rest),
    decreases first.len(),
{
    if first.len() == 0 {
        assert(first + rest =~= rest);
        assert(asked(state, first) + asked(run(state, first), rest) =~= asked(state, rest));
    } else {
        let after = state.next(first[0]).0;
        assert((first + rest).drop_first() =~= first.drop_first() + rest);
        assert((first + rest)[0] == first[0]);
        lemma_run_append(after, first.drop_first(), rest);
        assert(asked(state, first + rest) =~= asked(state, first) + asked(
            run(state, first),
            rest,
        ));
    }
}

/// One action is asked for with each event.
pub proof fn lemma_asked_len(state: LoggerState, events: Seq<Event>)
    ensures
        asked(state, events).len() == events.len(),
    decreases events.len(),
{
    if events.len() > 0 {
        lemma_asked_len(state.next(events[0]).0, events.drop_first());
    }
}

/// Once initialized, always initialized, and with the same destination:
/// whatever events follow, the state stays as it is and nothing is asked for
/// but to return. A second call of the initializer therefore does no work at
/// all.
pub proof fn lemma_initialized_is_final(state: LoggerState, events: Seq<Event>)
    requires
        state.initialized(),
    ensures
        run(state, events) == state,
        forall|i: int| 0 <= i < events.len() ==> asked(state, events)[i] == Action::Return,
        asked(state, events).len() == events.len(),
    decreases events.len(),
{
    if events.len() > 0 {
        let rest = events.drop_first();
        lemma_initialized_is_final(state, rest);
        assert forall|i: int| 0 <= i < events.len() implies asked(state, events)[i]
            == Action::Return by {
            if i > 0 {
                assert(asked(state, events)[i] == asked(state, rest)[i - 1]);
            }
        }
    }
}

/// Initialization never goes back: along any events the stage does not fall.
pub proof fn lemma_stage_never_falls(state: LoggerState, events: Seq<Event>)
    ensures
        run(state, events).stage() >= state.stage(),
    decreases events.len(),
{
    if events.len() > 0 {
        lemma_step_progress(state, events[0]);
        lemma_stage_never_falls(state.next(events[0]).0, events.drop_first());
    }
}

/// The actions asked for after the first event are those asked for from the
/// state that the first event leads to.
proof fn lemma_asked_unfold(state: LoggerState, events: Seq<Event>)
    requires
        events.len() > 0,
    ensures
        asked(state, events)[0] == state.next(events[0]).1,
        asked(state, events).drop_first() == asked(state.next(events[0]).0, events.drop_first()),
        asked(state, events).len() > 0,
{
    let tail = asked(state.next(events[0]).0, events.drop_first());
    assert((seq![state.next(events[0]).1] + tail).drop_first() =~= tail);
}

/// A writer is opened at most once, whatever happens and however often
/// initialization is asked for; and never again once a writer has been asked
/// for.
pub proof fn lemma_writer_opened_at_most_once(state: LoggerState, events: Seq<Event>)
    ensures
        writers_opened(asked(state, events)) <= 1,
        state.stage() >= 5 ==> writers_opened(asked(state, events)) == 0,
    decreases events.len(),
{
    if events.len() > 0 {
        lemma_asked_unfold(state, events);
        lemma_step_progress(state, events[0]);
        lemma_writer_opened_at_most_once(state.next(events[0]).0, events.drop_first());
    }
}

/// The handle of a writer is stored at most once, whatever happens and however
/// often initialization is asked for: the process never holds two.
pub proof fn lemma_handle_kept_at_most_once(state: LoggerState, events: Seq<Event>)
    ensures
        handles_kept(asked(state, events)) <= 1,
        state.stage() >= 6 ==> handles_kept(asked(state, events)) == 0,
    decreases events.len(),
{
    if events.len() > 0 {
        lemma_asked_unfold(state, events);
        lemma_step_progress(state, events[0]);
        lemma_handle_kept_at_most_once(state.next(events[0]).0, events.drop_first());
    }
}

/// Directories are located, created and probed at most four times in all, and
/// no more once the destination is settled: from the fourth stage on, and so
/// in every later call of the initializer, the file system is not probed.
pub proof fn lemma_directory_probes_bounded(state: LoggerState, events: Seq<Event>)
    ensures
        directory_probes(asked(state, events)) + state.stage() <= 4 || (state.stage() >= 4
            && directory_probes(asked(state, events)) == 0),
    decreases events.len(),
{
    if events.len() > 0 {
        lemma_asked_unfold(state, events);
        lemma_step_progress(state, events[0]);
        lemma_directory_probes_bounded(state.next(events[0]).0, events.drop_first());
    }
}

/// One more event extends a run by one step.
pub proof fn lemma_run_push(state: LoggerState, events: Seq<Event>, event: Event)
    ensures
        run(state, events.push(event)) == run(state, events).next(event).0,
        asked(state, events.push(event)) == asked(state, events).push(
            run(state, events).next(event).1,
        ),
{
    let last = seq![event];
    let reached = run(state, events);
    let after = reached.next(event);
    lemma_run_append(state, events, last);
    assert(events.push(event) =~= events + last);
    assert(last[0] == event);
    assert(last.drop_first() =~= Seq::<Event>::empty());
    assert(run(after.0, last.drop_first()) == after.0);
    assert(asked(after.0, last.drop_first()) =~= Seq::<Action>::empty());
    assert(run(reached, last) == after.0);
    assert(asked(reached, last) =~= seq![after.1]);
    assert(asked(state, events) + seq![after.1] =~= asked(state, events).push(after.1));
}

/// The first call of the initializer up to the opening of the writer: the
/// events so far, the state reached and the actions asked for.
proof fn lemma_first_call_until_writer(o: Outcomes) -> (events: Seq<Event>)
    ensures
        events == seq![
            Event::Requested,
            outcome(o.executable_located),
            outcome(o.candidate_created),
            outcome(o.probe_passed),
            outcome(o.destination_created),
        ],
        run(LoggerState::Uninitialized, events) == LoggerState::OpeningWriter(o.destination()),
        asked(LoggerState::Uninitialized, events) == seq![
            Action::LocateExecutable,
            Action::EnsureDirectory(o.candidate()),
            Action::ProbeAppend(o.candidate()),
            Action::EnsureDirectory(o.destination()),
            Action::OpenWriter(o.destination()),
        ],
{
    let start = LoggerState::Uninitialized;
    let e0 = Seq::<Event>::empty();
    let e1 = e0.push(Event::Requested);
    let e2 = e1.push(outcome(o.executable_located));
    let e3 = e2.push(outcome(o.candidate_created));
    let e4 = e3.push(outcome(o.probe_passed));
    let e5 = e4.push(outcome(o.destination_created));
    assert(run(start, e0) == start);
    assert(asked(start, e0) =~= Seq::<Action>::empty());
    lemma_run_push(start, e0, Event::Requested);
    assert(run(start, e1) == LoggerState::Locating);
    lemma_run_push(start, e1, outcome(o.executable_located));
    assert(run(start, e2) == LoggerState::PreparingCandidate(o.candidate()));
    lemma_run_push(start, e2, outcome(o.candidate_created));
    assert(run(start, e3) == LoggerState::Probing(o.candidate()));
    lemma_run_push(start, e3, outcome(o.probe_passed));
    assert(run(start, e4) == LoggerState::PreparingDestination(o.destination()));
    lemma_run_push(start, e4, outcome(o.destination_created));
    assert(run(start, e5) == LoggerState::OpeningWriter(o.destination()));
    assert(asked(start, e5) =~= seq![
        Action::LocateExecutable,
        Action::EnsureDirectory(o.candidate()),
        Action::ProbeAppend(o.candidate()),
        Action::EnsureDirectory(o.destination()),
        Action::OpenWriter(o.destination()),
    ]);
    assert(e5 =~= seq![
        Event::Requested,
        outcome(o.executable_located),
        outcome(o.candidate_created),
        outcome(o.probe_passed),
        outcome(o.destination_created),
    ]);
    e5
}

/// The first call of the initializer, whatever the outcomes of its work, ends
/// initialized and asks for exactly the actions of `Outcomes::actions`: the
/// candidate directory is the executable's where that was found; the
/// destination is the candidate where the probe passed and the system's
/// temporary directory where it did not, and it is created before the writer
/// is opened there; the frontend is installed even where no writer could be
/// opened. No outcome stops initialization or is handed on to the caller.
pub proof fn lemma_first_call(o: Outcomes)
    ensures
        run(LoggerState::Uninitialized, o.events()) == LoggerState::Initialized(o.persisted_in()),
        asked(LoggerState::Uninitialized, o.events()) == o.actions(),
{
    let start = LoggerState::Uninitialized;
    let e5 = lemma_first_call_until_writer(o);
    let e6 = e5.push(outcome(o.writer_opened));
    lemma_run_push(start, e5, outcome(o.writer_opened));
    if o.writer_opened {
        let e7 = e6.push(outcome(o.handle_kept));
        let e8 = e7.push(outcome(o.frontend_installed));
        assert(run(start, e6) == LoggerState::KeepingHandle(o.destination()));
        lemma_run_push(start, e6, outcome(o.handle_kept));
        assert(run(start, e7) == LoggerState::InstallingFrontend(Some(o.destination())));
        lemma_run_push(start, e7, outcome(o.frontend_installed));
        assert(o.events() =~= e8);
        assert(asked(start, e8) =~= o.actions());
    } else {
        let e7 = e6.push(outcome(o.frontend_installed));
        assert(run(start, e6) == LoggerState::InstallingFrontend(None));
        lemma_run_push(start, e6, outcome(o.frontend_installed));
        assert(o.events() =~= e7);
        assert(asked(start, e7) =~= o.actions());
    }
}

/// An action that occurs among the actions is counted.
proof fn lemma_writer_counted(actions: Seq<Action>, at: int)
    requires
        0 <= at < actions.len(),
        actions[at] is OpenWriter,
    ensures
        writers_opened(actions) >= 1,
    decreases at,
{
    if at > 0 {
        lemma_writer_counted(actions.drop_first(), at - 1);
    }
}

/// Calling the initializer again changes nothing. After the first call,
/// whatever its outcomes, any further events leave the logger initialized with
/// the same destination and ask only to return; over both together a writer
/// was asked for exactly once, and the handle of a writer stored at most once.
pub proof fn lemma_later_calls_are_idle(o: Outcomes, later: Seq<Event>)
    ensures
        run(LoggerState::Uninitialized, o.events() + later) == LoggerState::Initialized(
            o.persisted_in(),
        ),
        asked(LoggerState::Uninitialized, o.events() + later) == o.actions() + Seq::new(
            later.len(),
            |i: int| Action::Return,
        ),
        writers_opened(asked(LoggerState::Uninitialized, o.events() + later)) == 1,
        handles_kept(asked(LoggerState::Uninitialized, o.events() + later)) <= 1,
{
    let start = LoggerState::Uninitialized;
    let done = LoggerState::Initialized(o.persisted_in());
    lemma_first_call(o);
    lemma_run_append(start, o.events(), later);
    lemma_initialized_is_final(done, later);
    assert(asked(done, later) =~= Seq::new(later.len(), |i: int| Action::Return));
    let all = asked(start, o.events() + later);
    assert(all[4] is OpenWriter);
    lemma_writer_counted(all, 4);
    lemma_writer_opened_at_most_once(start, o.events() + later);
    lemma_handle_kept_at_most_once(start, o.events() + later);
}

/// Where the log file cannot be opened in the candidate directory, the
/// destination is the system's temporary directory: that directory is created
/// next, the writer is opened there, and there the log lies once the writer is
/// open.
pub proof fn lemma_fallback_to_temp(o: Outcomes)
    requires
        !o.probe_passed,
    ensures
        o.destination() == LogDirectory::SystemTemp,
        asked(LoggerState::Uninitialized, o.events())[3] == Action::EnsureDirectory(
            LogDirectory::SystemTemp,
        ),
        asked(LoggerState::Uninitialized, o.events())[4] == Action::OpenWriter(
            LogDirectory::SystemTemp,
        ),
        o.writer_opened ==> run(LoggerState::Uninitialized, o.events())
            == LoggerState::Initialized(Some(LogDirectory::SystemTemp)),
{
    lemma_first_call(o);
}

/// Where the executable is found and the probe passes, the log lies beside the
/// executable.
pub proof fn lemma_preferred_directory(o: Outcomes)
    requires
        o.executable_located,
        o.probe_passed,
    ensures
        o.destination() == LogDirectory::BesideExecutable,
        o.writer_opened ==> run(LoggerState::Uninitialized, o.events())
            == LoggerState::Initialized(Some(LogDirectory::BesideExecutable)),
{
    lemma_first_call(o);
}

/// No failure stops initialization. Once it has been asked for, every outcome
/// reported takes it one stage further at least, so that after as many
/// outcomes as there are stages left, failures or not, the logger is
/// initialized.
pub proof fn lemma_every_outcome_leads_to_initialized(state: LoggerState, outcomes: Seq<Event>)
    requires
        !(state is Uninitialized),
        forall|i: int| 0 <= i < outcomes.len() ==> !(outcomes[i] is Requested),
        state.stage() + outcomes.len() >= 8,
    ensures
        run(state, outcomes).initialized(),
    decreases outcomes.len(),
{
    if outcomes.len() > 0 {
        let after = state.next(outcomes[0]).0;
        assert(!(outcomes[0] is Requested));
        assert(after.stage() >= state.stage() + 1 || after.initialized());
        if after.initialized() {
            lemma_initialized_is_final(after, outcomes.drop_first());
        } else {
            lemma_every_outcome_leads_to_initialized(after, outcomes.drop_first());
        }
    }
}

} // verus!
