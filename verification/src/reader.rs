//! The queue of internal events that a reader holds: events read from the source
//! ahead of time, and events handed back to it, wait there in order until read.

use vstd::prelude::*;
use std::collections::VecDeque;
use crate::event::{Event, InternalEvent};

verus! {

/// Whether a user event is among the given events.
pub open spec fn has_user_event(events: Seq<InternalEvent>) -> bool {
    exists|j: int| 0 <= j < events.len() && #[trigger] events[j] is Event
}

/// The events waiting in a reader, oldest first.
pub struct EventQueue {
    events: VecDeque<InternalEvent>,
}

impl View for EventQueue {
    type V = Seq<InternalEvent>;

    closed spec fn view(&self) -> Seq<InternalEvent> {
        self.events@
    }
}

impl EventQueue {
    /// An empty queue.
    pub fn new() -> (queue: EventQueue)
        ensures
            queue@ == Seq::<InternalEvent>::empty(),
    {
        EventQueue { events: VecDeque::new() }
    }

    /// Whether an event waits: a poll is answered at once when one does.
    pub fn has_pending(&self) -> (pending: bool)
        ensures
            pending == (self@.len() > 0),
    {
        self.events.len() > 0
    }

    /// Puts `event` behind the events that wait.
    pub fn enqueue(&mut self, event: InternalEvent)
        ensures
            final(self)@ == old(self)@.push(event),
    {
        self.events.push_back(event);
    }

    /// Takes what a poll of the source gave: an event joins the queue and the poll
    /// is answered with `true`; nothing leaves the queue as it is and the answer is
    /// `false`.
    pub fn accept(&mut self, read: Option<InternalEvent>) -> (ready: bool)
        ensures
            ready == read is Some,
            read matches Some(e) ==> final(self)@ == old(self)@.push(e),
            read is None ==> final(self)@ == old(self)@,
    {
        match read {
            Some(event) => {
                self.events.push_back(event);
                true
            },
            None => false,
        }
    }

    /// Whether a user event waits: a user reader's poll is answered at once when
    /// one does; cursor position reports do not count.
    pub fn has_pending_user_event(&self) -> (pending: bool)
        ensures
            pending == has_user_event(self@),
    {
        let len = self.events.len();
        let mut i: usize = 0;
        while i < len
            invariant
                len == self@.len(),
                0 <= i <= len,
                forall|j: int| 0 <= j < i ==> !(#[trigger] self@[j] is Event),
            decreases len - i,
        {
            match self.events[i] {
                InternalEvent::Event(_) => {
                    assert(self@[i as int] is Event);
                    return true;
                },
                InternalEvent::CursorPosition(..) => {},
            }
            i = i + 1;
        }
        false
    }

    /// Takes the oldest waiting event, if any.
    pub fn take_next(&mut self) -> (next: Option<InternalEvent>)
        ensures
            old(self)@.len() == 0 ==> next is None && final(self)@ == old(self)@,
            old(self)@.len() > 0 ==> next == Some(old(self)@[0]) && final(self)@
                == old(self)@.drop_first(),
    {
        self.events.pop_front()
    }

    /// Takes the oldest waiting user event, if any: the cursor position reports in
    /// front of it are not for a user reader and are taken out with it. Without a
    /// user event the queue is emptied.
    pub fn take_next_user_event(&mut self) -> (next: Option<Event>)
        ensures
            next is Some <==> has_user_event(old(self)@),
            next is None ==> final(self)@ == Seq::<InternalEvent>::empty()
                && forall|j: int| 0 <= j < old(self)@.len() ==> #[trigger] old(self)@[j] is CursorPosition,
            next matches Some(e) ==> exists|k: int|
                0 <= k < old(self)@.len()
                && #[trigger] old(self)@[k] == InternalEvent::Event(e)
                && (forall|j: int| 0 <= j < k ==> #[trigger] old(self)@[j] is CursorPosition)
                && final(self)@ == old(self)@.skip(k + 1),
    {
        let ghost start = self@;
        let ghost mut taken: int = 0;
        loop
            invariant
                start == old(self)@,
                0 <= taken <= start.len(),
                self@ == start.skip(taken),
                forall|j: int| 0 <= j < taken ==> #[trigger] start[j] is CursorPosition,
            decreases self@.len(),
        {
            let next = self.take_next();
            match next {
                None => {
                    assert(taken == start.len());
                    return None;
                },
                Some(InternalEvent::Event(e)) => {
                    assert(start[taken] == InternalEvent::Event(e));
                    assert(self@ =~= start.skip(taken + 1));
                    return Some(e);
                },
                Some(InternalEvent::CursorPosition(..)) => {
                    proof {
                        assert(start[taken] is CursorPosition);
                        assert(self@ =~= start.skip(taken + 1));
                        taken = taken + 1;
                    }
                },
            }
        }
    }
}

/// Events come out of the queue in the order in which they went in: whatever waits
/// in front of a newly enqueued event is taken before it, and an event put into an
/// empty queue is the next one taken.
pub proof fn first_in_first_out(waiting: Seq<InternalEvent>, event: InternalEvent)
    ensures
        waiting.len() > 0 ==> waiting.push(event)[0] == waiting[0],
        waiting.len() > 0 ==> waiting.push(event).drop_first() == waiting.drop_first().push(event),
        waiting.len() == 0 ==> waiting.push(event)[0] == event,
{
    if waiting.len() > 0 {
        assert(waiting.push(event).drop_first() =~= waiting.drop_first().push(event));
    }
}

/// A user poll that saw a user event waiting is followed by a user read that
/// returns the oldest of them without waiting: where user events wait,
/// `take_next_user_event` returns one, and the event it returns is the first user
/// event in the queue. In particular, where no user event waited before the source
/// gave `e`, the read returns `e`.
pub proof fn polled_user_event_is_read(waiting: Seq<InternalEvent>, e: Event)
    ensures
        has_user_event(waiting.push(InternalEvent::Event(e))),
        !has_user_event(waiting) ==> forall|k: int|
            0 <= k < waiting.len() + 1 && #[trigger] waiting.push(InternalEvent::Event(e))[k] is Event
                ==> k == waiting.len() && waiting.push(InternalEvent::Event(e))[k]
                == InternalEvent::Event(e),
{
    let q = waiting.push(InternalEvent::Event(e));
    assert(q[waiting.len() as int] is Event);
    assert forall|k: int|
        !has_user_event(waiting) && 0 <= k < waiting.len() + 1 && #[trigger] q[k] is Event implies k
        == waiting.len() && q[k] == InternalEvent::Event(e) by {
        if k < waiting.len() {
            assert(waiting[k] is Event);
        }
    }
}

} // verus!
