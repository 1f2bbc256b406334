//! A model that counts arrow-key presses: up adds one, down takes one away, and a
//! request to close the window finishes it.
use vstd::prelude::*;

use crate::app::{Model, Status};
use crate::event::{Event, KeyboardInput, Window, KEY_DOWN, KEY_UP};

verus! {

/// Whether the event asks to close a window.
pub open spec fn is_close_request(e: Event) -> bool {
    e matches Event::Window { event: Window::CloseRequested, .. }
}

/// What a key event does to the counter: one up, one down, or nothing.
pub open spec fn key_step(e: Event) -> int {
    match e {
        Event::Window { event: Window::KeyboardInput { input, .. }, .. } => match input.virtual_keycode {
            Some(k) => if k == KEY_UP {
                1int
            } else if k == KEY_DOWN {
                -1int
            } else {
                0int
            },
            None => 0int,
        },
        _ => 0int,
    }
}

/// An integer brought into the range of `i32`, wrapping around at either end.
pub open spec fn wrapped(x: int) -> i32 {
    if x > i32::MAX {
        (x - 0x1_0000_0000) as i32
    } else if x < i32::MIN {
        (x + 0x1_0000_0000) as i32
    } else {
        x as i32
    }
}

/// The counter after a batch: every key step up to the first close request.
pub open spec fn counted(value: i32, events: Seq<Event>) -> i32
    decreases events.len(),
{
    if events.len() == 0 || is_close_request(events[0]) {
        value
    } else {
        counted(wrapped(value + key_step(events[0])), events.drop_first())
    }
}

/// Whether a batch holds a close request.
pub open spec fn has_close_request(events: Seq<Event>) -> bool {
    exists|i: int| 0 <= i < events.len() && is_close_request(#[trigger] events[i])
}

/// A counter driven by arrow keys.
pub struct CounterModel {
    value: i32,
}

impl View for CounterModel {
    type V = i32;

    closed spec fn view(&self) -> i32 {
        self.value
    }
}

impl CounterModel {
    pub fn new() -> (r: Self)
        ensures
            r@ == 0,
    {
        CounterModel { value: 0 }
    }

    /// A counter seeded at the given value.
    pub fn with_value(value: i32) -> (r: Self)
        ensures
            r@ == value,
    {
        CounterModel { value }
    }

    pub fn value(&self) -> (r: i32)
        ensures
            r == self@,
    {
        self.value
    }
}

impl Model for CounterModel {
    open spec fn finishes(&self, events: Seq<Event>) -> bool {
        has_close_request(events)
    }

    closed spec fn after(&self, events: Seq<Event>) -> Self {
        CounterModel { value: counted(self.value, events) }
    }

    fn update(&mut self, events: &[Event]) -> (r: Status) {
        let ghost start = self.value;
        let n = events.len();
        let mut i: usize = 0;
        let mut status = Status::Running;
        assert(events@.subrange(0, n as int) =~= events@);
        while i < n
            invariant_except_break
                status == Status::Running,
            invariant
                n == events@.len(),
                i <= n,
                forall|j: int| 0 <= j < i ==> !is_close_request(#[trigger] events@[j]),
                counted(self.value, events@.subrange(i as int, n as int)) == counted(
                    start,
                    events@,
                ),
            ensures
                self.value == counted(start, events@),
                status == Status::Finished <==> has_close_request(events@),
            decreases n - i,
        {
            let ghost rest = events@.subrange(i as int, n as int);
            assert(rest.drop_first() =~= events@.subrange(i + 1, n as int));
            assert(rest[0] == events@[i as int]);
            match &events[i] {
                Event::Window { event: Window::CloseRequested, .. } => {
                    assert(counted(self.value, rest) == self.value);
                    status = Status::Finished;
                    break;
                },
                Event::Window {
                    event: Window::KeyboardInput { input: KeyboardInput { virtual_keycode: Some(k), .. }, .. },
                    ..
                } => {
                    if *k == KEY_UP {
                        self.value = if self.value == i32::MAX {
                            i32::MIN
                        } else {
                            self.value + 1
                        };
                    } else if *k == KEY_DOWN {
                        self.value = if self.value == i32::MIN {
                            i32::MAX
                        } else {
                            self.value - 1
                        };
                    }
                },
                _ => {},
            }
            i = i + 1;
        }
        status
    }
}

/// The state after a batch, as a number: every key step up to the first close
/// request, wrapping around at the ends of `i32`.
pub proof fn lemma_after_is_counted(model: CounterModel, events: Seq<Event>)
    ensures
        model.after(events)@ == counted(model@, events),
{
}

/// A batch with a close request anywhere in it finishes the counter, whatever
/// else the batch holds and whatever the counter stood at.
pub proof fn lemma_close_request_finishes(model: CounterModel, events: Seq<Event>, at: int)
    requires
        0 <= at < events.len(),
        is_close_request(events[at]),
    ensures
        model.finishes(events),
{
}

/// A batch with no close request and no arrow key leaves the counter running and
/// unchanged.
pub proof fn lemma_inert_batch_keeps_state(model: CounterModel, events: Seq<Event>)
    requires
        forall|i: int|
            0 <= i < events.len() ==> !is_close_request(#[trigger] events[i]) && key_step(
                events[i],
            ) == 0,
    ensures
        !model.finishes(events),
        model.after(events)@ == model@,
    decreases events.len(),
{
    if events.len() > 0 {
        let rest = events.drop_first();
        assert forall|i: int| 0 <= i < rest.len() implies !is_close_request(#[trigger] rest[i])
            && key_step(rest[i]) == 0 by {
            assert(rest[i] == events[i + 1]);
        }
        lemma_inert_batch_keeps_state(model, rest);
        assert(wrapped(model@ + key_step(events[0])) == model@);
    }
}

} // verus!
