//! The application loop: one tick drains the event channel, updates the model
//! with the batch and, unless the model has finished, presents and renders it.
use std::sync::mpsc::Receiver;
use vstd::prelude::*;

use crate::channel::drain_available;
use crate::error::{UpdateError, RECEIVE_FAILED};
use crate::event::Event;

verus! {

/// Whether the application keeps running after a tick.
#[derive(Clone, Copy, Debug, PartialEq, Eq)]
pub enum Status {
    Running,
    Finished,
}

/// A state machine driven by batches of events. It is deterministic: what it
/// answers and the state it ends in depend on its state and the batch alone.
pub trait Model: Sized {
    /// Whether the model finishes on this batch.
    spec fn finishes(&self, events: Seq<Event>) -> bool;

    /// The state of the model after this batch.
    spec fn after(&self, events: Seq<Event>) -> Self;

    fn update(&mut self, events: &[Event]) -> (r: Status)
        ensures
            (r == Status::Finished) == old(self).finishes(events@),
            *final(self) == old(self).after(events@),
    ;
}

/// A read-only projection of a model into a render sink.
pub trait Present: Sized {
    type Mod;

    type Rend;

    /// Whether `after` is the sink `before` once this presentation of the model
    /// has been written to it.
    spec fn projected(&self, model: &Self::Mod, before: Self::Rend, after: Self::Rend) -> bool;

    fn present(&mut self, model: &Self::Mod, render: &mut Self::Rend)
        ensures
            *final(self) == *old(self),
            old(self).projected(model, *old(render), *final(render)),
    ;
}

/// An output sink that buffers what it is given until it is flushed.
pub trait Render: Sized {
    /// Whether `after` is this sink once its buffered output has been emitted.
    spec fn flushed(&self, after: Self) -> bool;

    fn render(&mut self)
        ensures
            old(self).flushed(*final(self)),
    ;
}

/// The application thread's state: the receiving end of the event channel, the
/// model, and the presentation of the model with its sink.
pub struct App<M, P, R> {
    event_rx: Receiver<Event>,
    model: M,
    present: P,
    render: R,
}

impl<M, P, R> App<M, P, R> where M: Model, R: Render, P: Present<Mod = M, Rend = R> {
    /// One tick on a batch: the model takes the batch; when it finishes, the tick
    /// ends there, with presentation and sink untouched; otherwise the model is
    /// presented into the sink and the sink is flushed.
    pub open spec fn ticked(self, events: Seq<Event>, next: Self, status: Status) -> bool {
        let model = self.model_of().after(events);
        &&& next.receiver_of() == self.receiver_of()
        &&& next.model_of() == model
        &&& next.present_of() == self.present_of()
        &&& if self.model_of().finishes(events) {
            &&& status == Status::Finished
            &&& next.render_of() == self.render_of()
        } else {
            &&& status == Status::Running
            &&& exists|shown: R|
                #![trigger self.present_of().projected(&model, self.render_of(), shown)]
                self.present_of().projected(&model, self.render_of(), shown) && shown.flushed(
                    next.render_of(),
                )
        }
    }

    /// The receiving end of the event channel.
    pub closed spec fn receiver_of(self) -> Receiver<Event> {
        self.event_rx
    }

    /// The model being driven.
    pub closed spec fn model_of(self) -> M {
        self.model
    }

    /// The presentation of the model.
    pub closed spec fn present_of(self) -> P {
        self.present
    }

    /// The sink the model is presented into.
    pub closed spec fn render_of(self) -> R {
        self.render
    }

    pub fn new(event_rx: Receiver<Event>, model: M, present: P, render: R) -> (r: Self)
        ensures
            r.receiver_of() == event_rx,
            r.model_of() == model,
            r.present_of() == present,
            r.render_of() == render,
    {
        App { event_rx, model, present, render }
    }

    pub fn model(&self) -> (r: &M)
        ensures
            *r == self.model_of(),
    {
        &self.model
    }

    pub fn render(&self) -> (r: &R)
        ensures
            *r == self.render_of(),
    {
        &self.render
    }

    /// Runs one tick on a batch of events that has already been taken.
    pub fn tick(&mut self, events: &[Event]) -> (r: Status)
        ensures
            old(self).ticked(events@, *final(self), r),
    {
        let ghost start = *self;
        if let Status::Finished = self.model.update(events) {
            return Status::Finished;
        }
        self.present.present(&self.model, &mut self.render);
        let ghost shown = self.render;
        self.render.render();
        assert(start.present_of().projected(
            &start.model_of().after(events@),
            start.render_of(),
            shown,
        ));
        Status::Running
    }

    /// Runs one tick on whatever the event channel holds now. When every sender is
    /// gone the tick fails and nothing is touched. Pacing between ticks is left to
    /// the caller, which sleeps between them.
    pub fn update(&mut self) -> (r: Result<Status, UpdateError>)
        ensures
            match r {
                Ok(status) => exists|events: Seq<Event>|
                    #[trigger] old(self).ticked(events, *final(self), status),
                Err(e) => e == UpdateError::Disconnected(RECEIVE_FAILED) && *final(self)
                    == *old(self),
            },
    {
        match drain_available(&self.event_rx) {
            Ok(events) => {
                let status = self.tick(events.as_slice());
                Ok(status)
            },
            Err(_) => Err(UpdateError::Disconnected(RECEIVE_FAILED)),
        }
    }
}

/// A tick in which the model finishes never reaches the presentation or the sink:
/// both are as they were before the tick.
pub proof fn lemma_finished_tick_skips_output<M, P, R>(
    app: App<M, P, R>,
    events: Seq<Event>,
    next: App<M, P, R>,
    status: Status,
) where M: Model, R: Render, P: Present<Mod = M, Rend = R>
    requires
        app.ticked(events, next, status),
        status == Status::Finished,
    ensures
        next.present_of() == app.present_of(),
        next.render_of() == app.render_of(),
{
}

/// Whether the loop that drives an application goes on after a tick: only a tick
/// that ran and left the model running asks for another one.
pub fn keeps_running(outcome: &Result<Status, UpdateError>) -> (r: bool)
    ensures
        r == (*outcome == Ok::<Status, UpdateError>(Status::Running)),
{
    match outcome {
        Ok(Status::Running) => true,
        _ => false,
    }
}

} // verus!
