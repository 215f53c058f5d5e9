# crossterm_input

Terminal input, with its logic verified by Verus.

- `src/` is the verified library: the time spans and poll timer (`time`,
  `poll_timer`), the event types (`event`), the queue a reader keeps (`reader`),
  the decisions of the Windows console source (`console`) and of the cursor
  position reader (`cursor`), and the mouse-capture commands (`mouse`).
- `app/` holds what talks to the outside world: the global readers, the event
  sources (a channel, the Windows console), and the loops that run the library's
  decisions against the terminal.
- `tests/` runs the library on concrete values.
