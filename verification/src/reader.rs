//! The decision core of the log reader. The reader itself owns a background
//! ingestion thread, a poll-based file watcher and a lock-protected data
//! log; the decisions those loops take — when to exit, how status advances,
//! what a watcher outcome triggers, and what one ingestion batch does to the
//! shared state — are pure functions and live here, verified.

use vstd::prelude::*;
use crate::parser::LogParser;
use crate::parser::parser_steps;
use crate::session::DataLog;
use crate::session::DataLogV;
use crate::session::datalog_steps;
use crate::session::lemma_datalog_steps_concat;
use crate::parser::LogParserV;
use crate::parser::lemma_parser_steps_concat;
use vstd::string::StringExecFns;

verus! {

/// A command sent to the ingestion thread.
#[derive(Debug, PartialEq, Eq, Structural, Clone, Copy)]
pub enum LogReaderCommand {
    Update,
    Stop,
}

/// The reader's externally visible status.
#[derive(Debug, PartialEq, Eq, Structural, Clone, Copy)]
pub enum LogReaderStatus {
    Initializing,
    Reading,
    Idle,
    Errored,
}

/// What one poll of the command channel returned: a command, nothing yet, or
/// a closed channel.
#[derive(Debug, PartialEq, Eq, Structural, Clone, Copy)]
pub enum PollResult {
    Received(LogReaderCommand),
    Empty,
    Disconnected,
}

/// What the watcher does with one outcome of a poll of the file.
#[derive(Debug, PartialEq, Eq, Structural, Clone, Copy)]
pub enum WatcherAction {
    SendUpdate,
    MarkErrored,
}

impl LogReaderStatus {
    /// Human-readable name of the status.
    pub fn display_name(&self) -> (r: String)
        ensures
            r@ == status_display(*self),
    {
        match self {
            LogReaderStatus::Initializing => String::from_str("Initializing"),
            LogReaderStatus::Reading => String::from_str("Reading"),
            LogReaderStatus::Idle => String::from_str("Idle"),
            LogReaderStatus::Errored => String::from_str("Errored"),
        }
    }
}

/// Display name of a status.
pub open spec fn status_display(s: LogReaderStatus) -> Seq<char> {
    match s {
        LogReaderStatus::Initializing => "Initializing"@,
        LogReaderStatus::Reading => "Reading"@,
        LogReaderStatus::Idle => "Idle"@,
        LogReaderStatus::Errored => "Errored"@,
    }
}

/// The ingestion thread exits on a stop command or a closed channel, and
/// keeps going on an update command or an empty poll.
pub open spec fn check_exit_spec(polled: PollResult) -> bool {
    match polled {
        PollResult::Received(LogReaderCommand::Update) => false,
        PollResult::Empty => false,
        PollResult::Received(LogReaderCommand::Stop) => true,
        PollResult::Disconnected => true,
    }
}

/// Decide whether the ingestion loop must exit, given what a poll of the
/// command channel returned.
pub fn check_exit(polled: PollResult) -> (r: bool)
    ensures
        r == check_exit_spec(polled),
{
    match polled {
        PollResult::Received(LogReaderCommand::Update) => false,
        PollResult::Empty => false,
        PollResult::Received(LogReaderCommand::Stop) => true,
        PollResult::Disconnected => true,
    }
}

/// While draining lines the status advances to `Reading`, except that the
/// first initialization pass is never regressed: an initializing reader
/// stays initializing.
pub open spec fn reading_status_spec(current: LogReaderStatus) -> LogReaderStatus {
    if current == LogReaderStatus::Initializing {
        LogReaderStatus::Initializing
    } else {
        LogReaderStatus::Reading
    }
}

/// The status to store while draining lines.
pub fn reading_status(current: LogReaderStatus) -> (r: LogReaderStatus)
    ensures
        r == reading_status_spec(current),
{
    if current == LogReaderStatus::Initializing {
        LogReaderStatus::Initializing
    } else {
        LogReaderStatus::Reading
    }
}

/// A good watcher poll queues an update command; a failed one marks the
/// reader errored and queues nothing.
pub fn watcher_decision(poll_ok: bool) -> (r: WatcherAction)
    ensures
        r == (if poll_ok {
            WatcherAction::SendUpdate
        } else {
            WatcherAction::MarkErrored
        }),
{
    if poll_ok {
        WatcherAction::SendUpdate
    } else {
        WatcherAction::MarkErrored
    }
}

/// One ingestion batch: parse the drained lines in order with the reader's
/// private parser, then apply every resulting event to the data log, in
/// order. This is the whole effect one update command has on the shared
/// state.
pub fn apply_lines(parser: &mut LogParser, datalog: &mut DataLog, lines: &[&str])
    requires
        old(datalog).wf(),
    ensures
        final(datalog).wf(),
        final(parser)@ == parser_steps(old(parser)@, lines@.map_values(|s: &str| s@)).0,
        final(datalog)@ == datalog_steps(
            old(datalog)@,
            parser_steps(old(parser)@, lines@.map_values(|s: &str| s@)).1,
        ),
{
    let events = parser.parse_lines(lines);
    datalog.handle_events(events);
}

/// A file written in two bursts: applying the first burst's batch and then
/// the second's leaves exactly the state of one batch over the concatenated
/// lines. Every event of burst one is applied before any event of burst two,
/// and nothing is reordered or coalesced across the seam.
pub proof fn lemma_bursts_in_order(
    p: LogParserV,
    dl: DataLogV,
    burst1: Seq<Seq<char>>,
    burst2: Seq<Seq<char>>,
)
    ensures
        datalog_steps(
            datalog_steps(dl, parser_steps(p, burst1).1),
            parser_steps(parser_steps(p, burst1).0, burst2).1,
        ) == datalog_steps(dl, parser_steps(p, burst1 + burst2).1),
{
    lemma_parser_steps_concat(p, burst1, burst2);
    lemma_datalog_steps_concat(
        dl,
        parser_steps(p, burst1).1,
        parser_steps(parser_steps(p, burst1).0, burst2).1,
    );
}

} // verus!
