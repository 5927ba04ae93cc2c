//! The one-time initialization of the process-wide logger.
//!
//! Initialization alternates decisions with work on the file system and on the
//! logging frontend. The decisions live here, as a transition function: the
//! caller hands in what happened ([`Event`]), and is told what to do next
//! ([`Action`]). The caller performs the action and reports its outcome, until
//! it is told to return.
//!
//! A failure to create a directory is advisory: the directory is used anyway,
//! and only a failed probe of the log file makes the logger fall back to the
//! system's temporary directory.

use crate::record::{panic_record_spec, starting_record_spec, Severity, SourceLocationView};
use vstd::prelude::*;

verus! {

/// Name of the log file, the same on every run so that runs append to one file.
pub open spec fn log_file_name_spec() -> Seq<char> {
    "notes-desktop.log"@
}

/// The fixed name of the log file inside the resolved directory.
pub fn log_file_name() -> (name: &'static str)
    ensures
        name@ == log_file_name_spec(),
{
    "notes-desktop.log"
}

/// A directory that may hold the log file.
#[derive(Clone, Copy, Debug, PartialEq, Eq, Structural)]
pub enum LogDirectory {
    /// The directory that contains the running executable.
    BesideExecutable,
    /// The system's directory for temporary files.
    SystemTemp,
}

/// How the logging frontend is to be set up.
#[derive(Clone, Copy, Debug, PartialEq, Eq, Structural)]
pub struct FrontendConfig {
    /// Records more verbose than this are filtered out by default.
    pub min_level: Severity,
    /// Whether a filter specification from the environment, if present,
    /// replaces the default threshold.
    pub env_override: bool,
    /// Whether records go to the log file; `false` when no writer could be
    /// opened, so that nothing is persisted.
    pub to_file: bool,
}

/// The frontend's setup: informational threshold, open to an override from the
/// environment.
pub open spec fn frontend_config(to_file: bool) -> FrontendConfig {
    FrontendConfig { min_level: Severity::Info, env_override: true, to_file }
}

/// What the caller is asked to do next.
#[derive(Clone, Copy, Debug, PartialEq, Eq, Structural)]
pub enum Action {
    /// Find the directory that contains the running executable.
    LocateExecutable,
    /// Create the directory, with its parents, if it does not exist.
    EnsureDirectory(LogDirectory),
    /// Open the log file in the directory for appending, creating it if it is
    /// absent, to see whether it can be written.
    ProbeAppend(LogDirectory),
    /// Open the non-blocking, append-only writer on the log file in the
    /// directory.
    OpenWriter(LogDirectory),
    /// Store the handle that keeps the writer's worker alive for the rest of
    /// the process.
    KeepHandle,
    /// Install the logging frontend.
    InstallFrontend(FrontendConfig),
    /// Nothing is left to do: return to whoever asked for initialization.
    Return,
}

/// What the caller reports.
#[derive(Clone, Copy, Debug, PartialEq, Eq, Structural)]
pub enum Event {
    /// Initialization was asked for.
    Requested,
    /// The action asked for last was carried out.
    Succeeded,
    /// The action asked for last could not be carried out.
    Failed,
}

/// Where the logger stands. `Uninitialized` and `Initialized` are the states
/// that callers of the initializer can observe; the others are passed through
/// during the one call that initializes.
#[derive(Clone, Copy, Debug, PartialEq, Eq, Structural)]
pub enum LoggerState {
    /// Nothing has been set up.
    Uninitialized,
    /// Waiting to learn where the executable lies.
    Locating,
    /// Waiting for the candidate directory to be created.
    PreparingCandidate(LogDirectory),
    /// Waiting for the probe of the log file in the candidate directory.
    Probing(LogDirectory),
    /// Waiting for the destination directory to be created.
    PreparingDestination(LogDirectory),
    /// Waiting for the writer to be opened in the destination directory.
    OpeningWriter(LogDirectory),
    /// Waiting for the writer's handle to be stored.
    KeepingHandle(LogDirectory),
    /// Waiting for the frontend to be installed; `None` when no writer could
    /// be opened.
    InstallingFrontend(Option<LogDirectory>),
    /// Set up, for the rest of the process. Holds the directory of the log
    /// file, or `None` when no directory could be written and nothing is
    /// persisted.
    Initialized(Option<LogDirectory>),
}

/// The directory tried first: beside the executable where that is known.
pub open spec fn candidate_directory(executable_located: bool) -> LogDirectory {
    if executable_located {
        LogDirectory::BesideExecutable
    } else {
        LogDirectory::SystemTemp
    }
}

/// The directory used after the probe: the candidate where the log file could
/// be opened there, else the system's temporary directory.
pub open spec fn destination_directory(candidate: LogDirectory, probe_passed: bool) -> LogDirectory {
    if probe_passed {
        candidate
    } else {
        LogDirectory::SystemTemp
    }
}

impl LoggerState {
    /// Whether initialization is complete.
    pub open spec fn initialized(self) -> bool {
        self is Initialized
    }

    /// How far initialization has come, from 0 (nothing done) to 8 (complete).
    pub open spec fn stage(self) -> nat {
        match self {
            LoggerState::Uninitialized => 0,
            LoggerState::Locating => 1,
            LoggerState::PreparingCandidate(_) => 2,
            LoggerState::Probing(_) => 3,
            LoggerState::PreparingDestination(_) => 4,
            LoggerState::OpeningWriter(_) => 5,
            LoggerState::KeepingHandle(_) => 6,
            LoggerState::InstallingFrontend(_) => 7,
            LoggerState::Initialized(_) => 8,
        }
    }

    /// Whether the state waits for an outcome that decides anything. Where it
    /// does not, the work is advisory: it is attempted, and whether it
    /// succeeded is not looked at.
    pub open spec fn heeds_outcome(self) -> bool {
        self is Locating || self is Probing || self is OpeningWriter
    }

    /// The state and the action that follow an event.
    ///
    /// A request starts initialization only from `Uninitialized`; in every
    /// other state it changes nothing and asks for nothing. An outcome answers
    /// the action that the state waits for; where the state waits for none, it
    /// changes nothing either.
    pub open spec fn next(self, event: Event) -> (LoggerState, Action) {
        let ok = event is Succeeded;
        if event is Requested {
            if self is Uninitialized {
                (LoggerState::Locating, Action::LocateExecutable)
            } else {
                (self, Action::Return)
            }
        } else {
            match self {
                LoggerState::Uninitialized => (self, Action::Return),
                LoggerState::Locating => {
                    let candidate = candidate_directory(ok);
                    (LoggerState::PreparingCandidate(candidate), Action::EnsureDirectory(candidate))
                },
                LoggerState::PreparingCandidate(candidate) => (
                    LoggerState::Probing(candidate),
                    Action::ProbeAppend(candidate),
                ),
                LoggerState::Probing(candidate) => {
                    let destination = destination_directory(candidate, ok);
                    (
                        LoggerState::PreparingDestination(destination),
                        Action::EnsureDirectory(destination),
                    )
                },
                LoggerState::PreparingDestination(destination) => (
                    LoggerState::OpeningWriter(destination),
                    Action::OpenWriter(destination),
                ),
                LoggerState::OpeningWriter(destination) => if ok {
                    (LoggerState::KeepingHandle(destination), Action::KeepHandle)
                } else {
                    (
                        LoggerState::InstallingFrontend(None),
                        Action::InstallFrontend(frontend_config(false)),
                    )
                },
                LoggerState::KeepingHandle(destination) => (
                    LoggerState::InstallingFrontend(Some(destination)),
                    Action::InstallFrontend(frontend_config(true)),
                ),
                LoggerState::InstallingFrontend(destination) => (
                    LoggerState::Initialized(destination),
                    Action::Return,
                ),
                LoggerState::Initialized(_) => (self, Action::Return),
            }
        }
    }

    /// The state of a process in which nothing has been set up.
    pub fn new() -> (state: LoggerState)
        ensures
            state == LoggerState::Uninitialized,
    {
        LoggerState::Uninitialized
    }

    /// Whether initialization is complete.
    pub fn is_initialized(&self) -> (done: bool)
        ensures
            done == self.initialized(),
    {
        match self {
            LoggerState::Initialized(_) => true,
            _ => false,
        }
    }

    /// The directory of the log file, once initialization is complete and a
    /// writer is open.
    pub fn destination(&self) -> (directory: Option<LogDirectory>)
        ensures
            directory == match *self {
                LoggerState::Initialized(d) => d,
                _ => None,
            },
    {
        match self {
            LoggerState::Initialized(d) => *d,
            _ => None,
        }
    }

    /// Takes one event and gives the state that follows and the action to
    /// perform. Never fails: every failure reported is absorbed here, by a
    /// fallback or by going on without.
    pub fn step(self, event: Event) -> (result: (LoggerState, Action))
        ensures
            result == self.next(event),
    {
        let ok = match event {
            Event::Requested => {
                return match self {
                    LoggerState::Uninitialized => (LoggerState::Locating, Action::LocateExecutable),
                    _ => (self, Action::Return),
                };
            },
            Event::Succeeded => true,
            Event::Failed => false,
        };
        match self {
            LoggerState::Uninitialized => (self, Action::Return),
            LoggerState::Locating => {
                let candidate = if ok {
                    LogDirectory::BesideExecutable
                } else {
                    LogDirectory::SystemTemp
                };
                (LoggerState::PreparingCandidate(candidate), Action::EnsureDirectory(candidate))
            },
            LoggerState::PreparingCandidate(candidate) => (
                LoggerState::Probing(candidate),
                Action::ProbeAppend(candidate),
            ),
            LoggerState::Probing(candidate) => {
                let destination = if ok {
                    candidate
                } else {
                    LogDirectory::SystemTemp
                };
                (
                    LoggerState::PreparingDestination(destination),
                    Action::EnsureDirectory(destination),
                )
            },
            LoggerState::PreparingDestination(destination) => (
                LoggerState::OpeningWriter(destination),
                Action::OpenWriter(destination),
            ),
            LoggerState::OpeningWriter(destination) => {
                if ok {
                    (LoggerState::KeepingHandle(destination), Action::KeepHandle)
                } else {
                    (LoggerState::InstallingFrontend(None), Action::InstallFrontend(default_frontend(false)))
                }
            },
            LoggerState::KeepingHandle(destination) => (
                LoggerState::InstallingFrontend(Some(destination)),
                Action::InstallFrontend(default_frontend(true)),
            ),
            LoggerState::InstallingFrontend(destination) => (
                LoggerState::Initialized(destination),
                Action::Return,
            ),
            LoggerState::Initialized(_) => (self, Action::Return),
        }
    }
}

/// The frontend's setup: records below informational severity are filtered out
/// unless a filter specification from the environment says otherwise.
pub fn default_frontend(to_file: bool) -> (config: FrontendConfig)
    ensures
        config == frontend_config(to_file),
{
    FrontendConfig { min_level: Severity::Info, env_override: true, to_file }
}

/// Only three outcomes decide anything: whether the executable was found,
/// whether the probe passed, whether the writer was opened. Creating a
/// directory, storing the handle and installing the frontend are attempted,
/// and initialization goes on alike whether they succeeded or failed.
pub proof fn lemma_advisory_outcomes_are_ignored(state: LoggerState)
    requires
        !state.heeds_outcome(),
    ensures
        state.next(Event::Succeeded) == state.next(Event::Failed),
{
}

/// The start-up record and the record of a fault are informational: the
/// frontend's default threshold lets both through.
pub proof fn lemma_records_pass_default_threshold(
    version: Seq<char>,
    location: Option<SourceLocationView>,
    message: Seq<char>,
    to_file: bool,
)
    ensures
        starting_record_spec(version).level.passes(frontend_config(to_file).min_level),
        panic_record_spec(location, message).level.passes(frontend_config(to_file).min_level),
{
}

} // verus!
