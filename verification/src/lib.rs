//! Terminal input: poll timers, the decisions of the event readers, and the
//! escape sequences of the mouse-capture commands.

pub mod console;
pub mod cursor;
pub mod event;
pub mod mouse;
pub mod poll_timer;
pub mod reader;
pub mod time;
