//! The decisions made while the cursor position is read from the terminal.
//!
//! The position is asked for with an escape sequence; the terminal answers with a
//! cursor position report among the other input. The caller writes the request,
//! polls and reads the internal events; this module decides what each outcome
//! leads to.

use vstd::prelude::*;
use crate::event::InternalEvent;
use crate::time::Duration;

verus! {

/// The request for the cursor position: `ESC [ 6 n`.
pub open spec fn position_request_spec() -> Seq<char> {
    seq!['\x1B', '[', '6', 'n']
}

/// The escape sequence that asks the terminal for the cursor position.
pub fn position_request() -> (request: &'static str)
    ensures
        request@ == position_request_spec(),
{
    let request = "\x1B[6n";
    proof {
        reveal_strlit("\x1B[6n");
    }
    request
}

/// How long one poll for the answer may take: two seconds.
pub fn position_poll_timeout() -> (timeout: Duration)
    ensures
        timeout@ == 2_000_000_000,
{
    Duration::from_millis(2000)
}

/// How reading the position goes about raw mode.
#[derive(Clone, Copy, Debug, PartialEq, Eq, Structural)]
pub enum PositionPlan {
    /// Raw mode is on already: read the position as it is.
    ReadDirectly,
    /// Switch raw mode on, read the position, and switch raw mode off again.
    SwitchRawMode,
}

/// The plan for reading the position: the answer can only be read in raw mode, so
/// raw mode is switched on for the read where it is off.
pub fn position_plan(raw_mode_enabled: bool) -> (plan: PositionPlan)
    ensures
        raw_mode_enabled ==> plan == PositionPlan::ReadDirectly,
        !raw_mode_enabled ==> plan == PositionPlan::SwitchRawMode,
{
    if raw_mode_enabled {
        PositionPlan::ReadDirectly
    } else {
        PositionPlan::SwitchRawMode
    }
}

/// The result of a read made with raw mode switched on for it: a failure to switch
/// raw mode off again is reported in place of the position; otherwise the read's
/// own result stands.
pub fn after_raw_mode_restored<E>(read: Result<(u16, u16), E>, restore: Result<(), E>) -> (out:
    Result<(u16, u16), E>)
    ensures
        restore matches Err(e) ==> out == Err::<(u16, u16), E>(e),
        restore is Ok ==> out == read,
{
    match restore {
        Err(e) => Err(e),
        Ok(()) => read,
    }
}

/// What a poll for the answer came to.
#[derive(Clone, Copy, Debug, PartialEq, Eq, Structural)]
pub enum PollOutcome {
    /// An internal event is ready to be read.
    Ready,
    /// The poll timed out with nothing to read.
    TimedOut,
    /// The poll failed.
    Failed,
}

/// What a read of an internal event came to.
#[derive(Clone, Copy, Debug, PartialEq, Eq, Structural)]
pub enum ReadOutcome {
    Read(InternalEvent),
    Failed,
}

/// What the reader of the position does next.
#[derive(Clone, Copy, Debug, PartialEq, Eq, Structural)]
pub enum PositionStep {
    /// Read the internal event that is ready.
    ReadEvent,
    /// The position is known: (column, row).
    Found(u16, u16),
    /// Put this event back for its own reader, then poll again.
    Requeue(InternalEvent),
    /// Poll again.
    PollAgain,
    /// Give up: the position could not be read within the poll timeout.
    GiveUp,
}

/// The step after a poll: read what is ready, give up when the poll timed out, and
/// poll again when it failed.
pub fn after_poll(outcome: PollOutcome) -> (step: PositionStep)
    ensures
        outcome == PollOutcome::Ready ==> step == PositionStep::ReadEvent,
        outcome == PollOutcome::TimedOut ==> step == PositionStep::GiveUp,
        outcome == PollOutcome::Failed ==> step == PositionStep::PollAgain,
{
    match outcome {
        PollOutcome::Ready => PositionStep::ReadEvent,
        PollOutcome::TimedOut => PositionStep::GiveUp,
        PollOutcome::Failed => PositionStep::PollAgain,
    }
}

/// The step after a read: a cursor position report gives the position; any other
/// event is put back unchanged, so that no user event is lost to the position
/// reader; a failed read leads to another poll.
pub fn after_read(outcome: ReadOutcome) -> (step: PositionStep)
    ensures
        outcome matches ReadOutcome::Read(InternalEvent::CursorPosition(x, y))
            ==> step == PositionStep::Found(x, y),
        outcome matches ReadOutcome::Read(InternalEvent::Event(e))
            ==> step == PositionStep::Requeue(InternalEvent::Event(e)),
        outcome == ReadOutcome::Failed ==> step == PositionStep::PollAgain,
{
    match outcome {
        ReadOutcome::Read(InternalEvent::CursorPosition(x, y)) => PositionStep::Found(x, y),
        ReadOutcome::Read(event) => PositionStep::Requeue(event),
        ReadOutcome::Failed => PositionStep::PollAgain,
    }
}

} // verus!
