//! The decisions of the event source that reads the Windows console input buffer.
//!
//! The console calls and the pause between two looks at the buffer are made by the
//! caller; this module decides, from what the console reported, what to do next.

use vstd::prelude::*;
use crate::event::{Event, InternalEvent};
use crate::poll_timer::{PollTimer, expired, span_of};
use crate::time::Duration;

verus! {

/// How long the source waits before it looks at an empty input buffer again, in
/// nanoseconds (50 milliseconds).
pub open spec fn console_pause() -> nat {
    50_000_000
}

/// What the console source does next.
#[derive(Clone, Copy, Debug, PartialEq, Eq, Structural)]
pub enum ConsoleStep {
    /// Read one record from the input buffer.
    ReadInput,
    /// Stop: the timeout has run out and nothing was read.
    GiveUp,
    /// Sleep for the given span, then look at the buffer again.
    Wait(Duration),
}

/// A record read from the console input buffer. Key and mouse records carry the
/// event that their translation gave, if any.
#[derive(Clone, Copy, Debug, PartialEq, Eq, Structural)]
pub enum ConsoleInput {
    Key(Option<Event>),
    Mouse(Option<Event>),
    WindowBufferSize,
    Focus,
    Menu,
}

/// The event that a console record yields: the translation of a key or mouse
/// record, and nothing for the other kinds of record.
pub open spec fn console_event(input: ConsoleInput) -> Option<InternalEvent> {
    match input {
        ConsoleInput::Key(Some(e)) => Some(InternalEvent::Event(e)),
        ConsoleInput::Mouse(Some(e)) => Some(InternalEvent::Event(e)),
        _ => None,
    }
}

/// An event source that reads the Windows console input buffer.
pub struct WinApiEventSource;

impl WinApiEventSource {
    pub fn new() -> WinApiEventSource {
        WinApiEventSource
    }

    /// The next step, given the number of records waiting in the input buffer and
    /// whether the timeout has run out: read when a record waits, else give up once
    /// the timeout has run out, else wait 50 milliseconds.
    pub fn step_after(&self, pending_events: u32, timed_out: bool) -> (step: ConsoleStep)
        ensures
            pending_events != 0 ==> step == ConsoleStep::ReadInput,
            pending_events == 0 && timed_out ==> step == ConsoleStep::GiveUp,
            pending_events == 0 && !timed_out ==> (step matches ConsoleStep::Wait(d)
                && d@ == console_pause()),
    {
        if pending_events != 0 {
            ConsoleStep::ReadInput
        } else if timed_out {
            ConsoleStep::GiveUp
        } else {
            ConsoleStep::Wait(Duration::from_millis(50))
        }
    }

    /// The next step, given the number of records waiting in the input buffer; the
    /// timer is asked whether the timeout has run out only when none waits, and the
    /// source gives up exactly when the timer says so, for the time the clock
    /// reported. Without a timeout it never gives up; with a zero timeout and an
    /// empty buffer it gives up at once; for other timeouts the clock decides.
    pub fn next_step(&self, pending_events: u32, timer: &mut PollTimer) -> (step: ConsoleStep)
        ensures
            *final(timer) == *old(timer),
            pending_events != 0 ==> step == ConsoleStep::ReadInput,
            pending_events == 0 ==> (step == ConsoleStep::GiveUp || (step matches ConsoleStep::Wait(d)
                && d@ == console_pause())),
            step == ConsoleStep::GiveUp ==> old(timer).timeout() is Some,
            pending_events == 0 ==> exists|spent: nat|
                (step == ConsoleStep::GiveUp) == #[trigger] expired(span_of(old(timer).timeout()), spent),
    {
        if pending_events != 0 {
            self.step_after(pending_events, false)
        } else {
            let timed_out = timer.elapsed();
            self.step_after(pending_events, timed_out)
        }
    }

    /// What a record read from the input buffer yields: a key or mouse record
    /// yields the event of its translation, if it had one; a window-buffer-size,
    /// focus or menu record yields nothing.
    pub fn event_of(&self, input: ConsoleInput) -> (out: Option<InternalEvent>)
        ensures
            out == console_event(input),
            forall|e: Event| input == ConsoleInput::Key(Some(e)) ==> out == Some(InternalEvent::Event(e)),
            forall|e: Event| input == ConsoleInput::Mouse(Some(e)) ==> out == Some(InternalEvent::Event(e)),
            input == ConsoleInput::Key(None) ==> out is None,
            input == ConsoleInput::Mouse(None) ==> out is None,
            input == ConsoleInput::WindowBufferSize ==> out is None,
            input == ConsoleInput::Focus ==> out is None,
            input == ConsoleInput::Menu ==> out is None,
    {
        match input {
            ConsoleInput::Key(Some(e)) => Some(InternalEvent::Event(e)),
            ConsoleInput::Mouse(Some(e)) => Some(InternalEvent::Event(e)),
            _ => None,
        }
    }
}

} // verus!
