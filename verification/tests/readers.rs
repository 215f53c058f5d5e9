use crossterm_input::console::{ConsoleInput, ConsoleStep, WinApiEventSource};
use crossterm_input::cursor::{
    after_poll, after_raw_mode_restored, after_read, position_plan, position_poll_timeout,
    position_request, PollOutcome, PositionPlan, PositionStep, ReadOutcome,
};
use crossterm_input::event::{Event, InternalEvent, KeyEvent, MouseButton, MouseEvent};
use crossterm_input::poll_timer::PollTimer;
use crossterm_input::reader::EventQueue;
use crossterm_input::time::Duration;

fn key_q() -> InternalEvent {
    InternalEvent::Event(Event::Key(KeyEvent::Char('q')))
}

#[test]
fn console_reads_when_records_wait() {
    let source = WinApiEventSource::new();
    assert_eq!(source.step_after(3, false), ConsoleStep::ReadInput);
    assert_eq!(source.step_after(1, true), ConsoleStep::ReadInput);
    let mut timer = PollTimer::new(Some(Duration::zero()));
    assert_eq!(source.next_step(2, &mut timer), ConsoleStep::ReadInput);
}

#[test]
fn console_waits_fifty_millis_or_gives_up() {
    let source = WinApiEventSource::new();
    assert_eq!(source.step_after(0, false), ConsoleStep::Wait(Duration::from_millis(50)));
    assert_eq!(source.step_after(0, true), ConsoleStep::GiveUp);
    let mut endless = PollTimer::new(None);
    assert_eq!(source.next_step(0, &mut endless), ConsoleStep::Wait(Duration::from_millis(50)));
    let mut expired = PollTimer::new(Some(Duration::zero()));
    assert_eq!(source.next_step(0, &mut expired), ConsoleStep::GiveUp);
}

#[test]
fn console_records_become_events() {
    let source = WinApiEventSource::new();
    let key = Event::Key(KeyEvent::Enter);
    let mouse = Event::Mouse(MouseEvent::Press(MouseButton::Left, 3, 4));
    assert_eq!(source.event_of(ConsoleInput::Key(Some(key))), Some(InternalEvent::Event(key)));
    assert_eq!(source.event_of(ConsoleInput::Key(None)), None);
    assert_eq!(source.event_of(ConsoleInput::Mouse(Some(mouse))), Some(InternalEvent::Event(mouse)));
    assert_eq!(source.event_of(ConsoleInput::Mouse(None)), None);
    assert_eq!(source.event_of(ConsoleInput::WindowBufferSize), None);
    assert_eq!(source.event_of(ConsoleInput::Focus), None);
    assert_eq!(source.event_of(ConsoleInput::Menu), None);
}

#[test]
fn cursor_request_and_timeout() {
    assert_eq!(position_request(), "\x1B[6n");
    assert_eq!(position_poll_timeout(), Duration::from_millis(2000));
}

#[test]
fn cursor_plan_follows_raw_mode() {
    assert_eq!(position_plan(true), PositionPlan::ReadDirectly);
    assert_eq!(position_plan(false), PositionPlan::SwitchRawMode);
}

#[test]
fn cursor_restore_failure_wins() {
    let read: Result<(u16, u16), &str> = Ok((4, 7));
    assert_eq!(after_raw_mode_restored(read, Ok(())), Ok((4, 7)));
    assert_eq!(after_raw_mode_restored(read, Err("restore")), Err("restore"));
    let failed: Result<(u16, u16), &str> = Err("read");
    assert_eq!(after_raw_mode_restored(failed, Ok(())), Err("read"));
    assert_eq!(after_raw_mode_restored(failed, Err("restore")), Err("restore"));
}

#[test]
fn cursor_poll_outcomes() {
    assert_eq!(after_poll(PollOutcome::Ready), PositionStep::ReadEvent);
    assert_eq!(after_poll(PollOutcome::TimedOut), PositionStep::GiveUp);
    assert_eq!(after_poll(PollOutcome::Failed), PositionStep::PollAgain);
}

#[test]
fn cursor_read_keeps_user_events() {
    assert_eq!(
        after_read(ReadOutcome::Read(InternalEvent::CursorPosition(12, 5))),
        PositionStep::Found(12, 5)
    );
    assert_eq!(after_read(ReadOutcome::Read(key_q())), PositionStep::Requeue(key_q()));
    assert_eq!(after_read(ReadOutcome::Failed), PositionStep::PollAgain);
}

#[test]
fn queue_is_first_in_first_out() {
    let mut queue = EventQueue::new();
    assert!(!queue.has_pending());
    assert_eq!(queue.take_next(), None);
    queue.enqueue(key_q());
    queue.enqueue(InternalEvent::CursorPosition(1, 2));
    assert!(queue.has_pending());
    assert_eq!(queue.take_next(), Some(key_q()));
    assert_eq!(queue.take_next(), Some(InternalEvent::CursorPosition(1, 2)));
    assert_eq!(queue.take_next(), None);
}

#[test]
fn queue_accepts_what_the_source_gave() {
    let mut queue = EventQueue::new();
    assert!(!queue.accept(None));
    assert!(!queue.has_pending());
    assert!(queue.accept(Some(key_q())));
    assert!(queue.has_pending());
    assert_eq!(queue.take_next(), Some(key_q()));
}

#[test]
fn user_events_exclude_cursor_reports() {
    assert_eq!(key_q().user_event(), Some(Event::Key(KeyEvent::Char('q'))));
    assert_eq!(InternalEvent::CursorPosition(0, 0).user_event(), None);
}

#[test]
fn queue_user_event_skips_cursor_reports() {
    let mut queue = EventQueue::new();
    queue.enqueue(InternalEvent::CursorPosition(1, 1));
    queue.enqueue(key_q());
    queue.enqueue(InternalEvent::CursorPosition(2, 2));
    assert_eq!(queue.take_next_user_event(), Some(Event::Key(KeyEvent::Char('q'))));
    assert_eq!(queue.take_next(), Some(InternalEvent::CursorPosition(2, 2)));
    queue.enqueue(InternalEvent::CursorPosition(3, 3));
    assert_eq!(queue.take_next_user_event(), None);
    assert!(!queue.has_pending());
}

#[test]
fn console_zero_timeout_gives_up_after_one_look() {
    let source = WinApiEventSource::new();
    let mut timer = PollTimer::new(Some(Duration::from_millis(0)));
    assert_eq!(source.next_step(0, &mut timer), ConsoleStep::GiveUp);
}

#[test]
fn queue_pending_user_event_ignores_cursor_reports() {
    let mut queue = EventQueue::new();
    assert!(!queue.has_pending_user_event());
    queue.enqueue(InternalEvent::CursorPosition(4, 4));
    assert!(queue.has_pending());
    assert!(!queue.has_pending_user_event());
    assert!(queue.accept(Some(key_q())));
    assert!(queue.has_pending_user_event());
    assert_eq!(queue.take_next_user_event(), Some(Event::Key(KeyEvent::Char('q'))));
    assert!(!queue.has_pending_user_event());
}
