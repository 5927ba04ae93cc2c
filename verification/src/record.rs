//! Log records: the start-up record and the record of an unhandled fault.

use crate::decimal::{decimal, push_decimal};
use vstd::prelude::*;

verus! {

/// How severe a record is; later variants are more severe, earlier ones more
/// verbose.
#[derive(Clone, Copy, Debug, PartialEq, Eq, Structural)]
pub enum Severity {
    Trace,
    Debug,
    Info,
    Warn,
    Error,
}

impl Severity {
    /// Position on the scale from most verbose (0) to most severe (4).
    pub open spec fn rank(self) -> nat {
        match self {
            Severity::Trace => 0,
            Severity::Debug => 1,
            Severity::Info => 2,
            Severity::Warn => 3,
            Severity::Error => 4,
        }
    }

    /// Whether a record of this severity passes a threshold of `minimum`.
    pub open spec fn passes(self, minimum: Severity) -> bool {
        self.rank() >= minimum.rank()
    }

    /// Whether a record of this severity passes a threshold of `minimum`:
    /// records more verbose than the threshold are filtered out.
    pub fn at_least(self, minimum: Severity) -> (passed: bool)
        ensures
            passed == self.passes(minimum),
    {
        let own: u8 = self.level_number();
        let least: u8 = minimum.level_number();
        own >= least
    }

    fn level_number(self) -> (number: u8)
        ensures
            number == self.rank(),
    {
        match self {
            Severity::Trace => 0,
            Severity::Debug => 1,
            Severity::Info => 2,
            Severity::Warn => 3,
            Severity::Error => 4,
        }
    }
}

/// Where in the source a fault was raised.
#[derive(Clone, Debug, PartialEq, Eq)]
pub struct SourceLocation {
    pub file: String,
    pub line: u32,
}

/// A source location as plain values.
pub struct SourceLocationView {
    pub file: Seq<char>,
    pub line: nat,
}

impl View for SourceLocation {
    type V = SourceLocationView;

    open spec fn view(&self) -> SourceLocationView {
        SourceLocationView { file: self.file@, line: self.line as nat }
    }
}

/// One entry for the log.
#[derive(Clone, Debug, PartialEq, Eq)]
pub struct LogRecord {
    /// Severity of the entry.
    pub level: Severity,
    /// Category label; `None` leaves the category to the emitter.
    pub target: Option<String>,
    /// The formatted message.
    pub message: String,
    /// Version identifier of the running build, on the start-up record.
    pub version: Option<String>,
}

/// A log record as plain values.
pub struct LogRecordView {
    pub level: Severity,
    pub target: Option<Seq<char>>,
    pub message: Seq<char>,
    pub version: Option<Seq<char>>,
}

/// The text of an optional string.
pub open spec fn optional_text(text: Option<String>) -> Option<Seq<char>> {
    match text {
        Some(t) => Some(t@),
        None => None,
    }
}

/// The plain values of an optional source location.
pub open spec fn optional_location(location: Option<&SourceLocation>) -> Option<
    SourceLocationView,
> {
    match location {
        Some(l) => Some(l@),
        None => None,
    }
}

impl View for LogRecord {
    type V = LogRecordView;

    open spec fn view(&self) -> LogRecordView {
        LogRecordView {
            level: self.level,
            target: optional_text(self.target),
            message: self.message@,
            version: optional_text(self.version),
        }
    }
}

/// Category under which unhandled faults are recorded.
pub open spec fn panic_target() -> Seq<char> {
    "panic"@
}

/// Message of the start-up record.
pub open spec fn starting_message() -> Seq<char> {
    "Notes Desktop starting"@
}

/// The start-up record for a build of the given version.
pub open spec fn starting_record_spec(version: Seq<char>) -> LogRecordView {
    LogRecordView {
        level: Severity::Info,
        target: None,
        message: starting_message(),
        version: Some(version),
    }
}

/// The message that records a fault: where it was raised, if known, then what
/// it said.
pub open spec fn panic_message(location: Option<SourceLocationView>, message: Seq<char>) -> Seq<
    char,
> {
    match location {
        Some(l) => "panic at "@ + l.file + ":"@ + decimal(l.line) + ": "@ + message,
        None => "panic: "@ + message,
    }
}

/// The record of an unhandled fault.
pub open spec fn panic_record_spec(
    location: Option<SourceLocationView>,
    message: Seq<char>,
) -> LogRecordView {
    LogRecordView {
        level: Severity::Info,
        target: Some(panic_target()),
        message: panic_message(location, message),
        version: None,
    }
}

/// Builds the informational record that announces start-up and carries the
/// version identifier of the running build.
pub fn starting_record(version: &str) -> (record: LogRecord)
    ensures
        record@ == starting_record_spec(version@),
{
    LogRecord {
        level: Severity::Info,
        target: None,
        message: String::from_str("Notes Desktop starting"),
        version: Some(String::from_str(version)),
    }
}

/// Builds the record of an unhandled fault: informational, under the category
/// `panic`, naming file and line where the location is known and ending in the
/// fault's own message.
pub fn panic_record(location: Option<&SourceLocation>, message: &str) -> (record: LogRecord)
    ensures
        record@ == panic_record_spec(optional_location(location), message@),
{
    let mut text = String::new();
    match location {
        Some(l) => {
            text.append("panic at ");
            text.append(l.file.as_str());
            text.append(":");
            push_decimal(&mut text, l.line);
            text.append(": ");
            text.append(message);
            assert(text@ =~= "panic at "@ + l.file@ + ":"@ + decimal(l.line as nat) + ": "@
                + message@);
        },
        None => {
            text.append("panic: ");
            text.append(message);
            assert(text@ =~= "panic: "@ + message@);
        },
    }
    LogRecord {
        level: Severity::Info,
        target: Some(String::from_str("panic")),
        message: text,
        version: None,
    }
}

/// Whether `part` stands somewhere in `whole`, unbroken.
pub open spec fn occurs_in(part: Seq<char>, whole: Seq<char>) -> bool {
    exists|at: int| occurs_at(part, whole, at)
}

/// Whether `part` stands in `whole` from position `at` on.
pub open spec fn occurs_at(part: Seq<char>, whole: Seq<char>, at: int) -> bool {
    0 <= at && at + part.len() <= whole.len() && whole.subrange(at, at + part.len()) == part
}

/// The record of a fault holds the fault's message in full, at its end, and
/// where the location is known also the file, a colon and the line number.
pub proof fn lemma_panic_record_captures_fault(
    location: Option<SourceLocationView>,
    message: Seq<char>,
)
    ensures
        panic_record_spec(location, message).target == Some(panic_target()),
        occurs_in(message, panic_record_spec(location, message).message),
        occurs_at(
            message,
            panic_record_spec(location, message).message,
            panic_record_spec(location, message).message.len() - message.len(),
        ),
        location matches Some(l) ==> occurs_in(
            l.file + ":"@ + decimal(l.line),
            panic_record_spec(location, message).message,
        ),
{
    let text = panic_record_spec(location, message).message;
    let at = text.len() - message.len();
    assert(text.subrange(at, at + message.len()) =~= message);
    assert(occurs_at(message, text, at));
    match location {
        Some(l) => {
            let place = l.file + ":"@ + decimal(l.line);
            let before = "panic at "@.len() as int;
            assert(text.subrange(before, before + place.len()) =~= place);
            assert(occurs_at(place, text, before));
        },
        None => {},
    }
}

} // verus!
