//! Draining the event channel once per tick.
use std::sync::mpsc::{Receiver, Sender, TryRecvError};
use vstd::prelude::*;

use crate::error::{UpdateError, RECEIVE_FAILED};

verus! {

/// Room reserved for a batch up front, enough for a burst of events without
/// growing the buffer.
pub const BATCH_CAPACITY: usize = 128;

#[verifier::external_type_specification]
#[verifier::external_body]
#[verifier::reject_recursive_types(T)]
pub struct ExReceiver<T>(Receiver<T>);

#[verifier::external_type_specification]
#[verifier::external_body]
#[verifier::reject_recursive_types(T)]
pub struct ExSender<T>(Sender<T>);

/// What one non-blocking receive gave.
#[derive(Clone, Debug, PartialEq, Eq)]
pub enum Received<T> {
    Item(T),
    Empty,
    Disconnected,
}

/// Relies on `Receiver::try_recv`: a value if one is queued, else whether the
/// queue is merely empty or every sender is gone. What comes back depends on the
/// other threads, so nothing is promised of it.
#[verifier::external_body]
pub(crate) fn try_receive<T>(rx: &Receiver<T>) -> (r: Received<T>) {
    match rx.try_recv() {
        Ok(v) => Received::Item(v),
        Err(TryRecvError::Empty) => Received::Empty,
        Err(TryRecvError::Disconnected) => Received::Disconnected,
    }
}

/// Relies on `Sender::send`: `true` when the value was queued, `false` when the
/// receiver is gone. Whether the receiver is still there depends on another
/// thread, so nothing is promised of the result.
#[verifier::external_body]
pub(crate) fn deliver<T>(tx: &Sender<T>, value: T) -> (r: bool) {
    tx.send(value).is_ok()
}

/// Where a drain stands after one receive outcome.
pub enum Step<T> {
    /// An item was taken: the batch so far, and the drain goes on.
    More(Vec<T>),
    /// The drain is over, with its verdict.
    Done(Result<Vec<T>, UpdateError>),
}

/// Adds one receive outcome to a batch: an item is appended and the drain goes
/// on; an empty queue ends it with the batch; a lost sender ends it with the
/// disconnection error, whatever the batch held.
pub fn absorb<T>(batch: Vec<T>, outcome: Received<T>) -> (r: Step<T>)
    ensures
        match outcome {
            Received::Item(v) => r matches Step::More(b) && b@ == batch@.push(v),
            Received::Empty => r matches Step::Done(Ok(b)) && b@ == batch@,
            Received::Disconnected => r matches Step::Done(Err(e)) && e
                == UpdateError::Disconnected(RECEIVE_FAILED),
        },
{
    match outcome {
        Received::Item(v) => {
            let mut batch = batch;
            batch.push(v);
            Step::More(batch)
        },
        Received::Empty => Step::Done(Ok(batch)),
        Received::Disconnected => Step::Done(Err(UpdateError::Disconnected(RECEIVE_FAILED))),
    }
}

/// The verdict that successive calls of `absorb` reach from a batch on a run of
/// receive outcomes, or `None` while the run has not ended the drain.
pub open spec fn verdict<T>(batch: Seq<T>, outcomes: Seq<Received<T>>) -> Option<
    Result<Seq<T>, UpdateError>,
>
    decreases outcomes.len(),
{
    if outcomes.len() == 0 {
        None
    } else {
        match outcomes[0] {
            Received::Item(v) => verdict(batch.push(v), outcomes.drop_first()),
            Received::Empty => Some(Ok(batch)),
            Received::Disconnected => Some(Err(UpdateError::Disconnected(RECEIVE_FAILED))),
        }
    }
}

/// Takes every value that is queued now, in arrival order, without blocking, by
/// handing each receive outcome to `absorb` and returning its verdict as it comes.
/// Fails when every sender is gone, even if values were still queued: the caller
/// will never receive anything more and must shut down.
pub fn drain_available<T>(rx: &Receiver<T>) -> (r: Result<Vec<T>, UpdateError>)
    ensures
        r is Ok || r == Err::<Vec<T>, UpdateError>(UpdateError::Disconnected(RECEIVE_FAILED)),
{
    let mut batch: Vec<T> = Vec::with_capacity(BATCH_CAPACITY);
    while batch.len() < usize::MAX
        decreases usize::MAX - batch.len(),
    {
        match absorb(batch, try_receive(rx)) {
            Step::More(b) => {
                batch = b;
            },
            Step::Done(r) => {
                return r;
            },
        }
    }
    // A batch as large as memory allows: the rest stays queued for the next drain.
    Ok(batch)
}

/// The outcomes a drain sees when the given values are queued: each value, then
/// the outcome that ends the queue.
pub open spec fn queued_then<T>(values: Seq<T>, end: Received<T>) -> Seq<Received<T>> {
    values.map_values(|v: T| Received::Item(v)).push(end)
}

proof fn lemma_verdict_through_items<T>(batch: Seq<T>, values: Seq<T>, end: Received<T>)
    ensures
        verdict(batch, queued_then(values, end)) == verdict(batch + values, seq![end]),
    decreases values.len(),
{
    let outs = queued_then(values, end);
    if values.len() == 0 {
        assert(outs =~= seq![end]);
        assert(batch + values =~= batch);
    } else {
        let rest = values.drop_first();
        assert(outs[0] == Received::Item(values[0]));
        assert(outs.drop_first() =~= queued_then(rest, end));
        lemma_verdict_through_items(batch.push(values[0]), rest, end);
        assert(batch.push(values[0]) + rest =~= batch + values);
    }
}

/// Values sent before a drain come out of it exactly once each and in the order
/// they were sent, when the queue then reports empty.
pub proof fn lemma_drain_keeps_send_order<T>(sent: Seq<T>)
    ensures
        verdict(Seq::empty(), queued_then(sent, Received::Empty)) == Some(
            Ok::<Seq<T>, UpdateError>(sent),
        ),
{
    lemma_verdict_through_items(Seq::empty(), sent, Received::Empty);
    assert(Seq::<T>::empty() + sent =~= sent);
}

/// Once every sender is gone, a drain reports the disconnection, never a batch,
/// whatever was still queued.
pub proof fn lemma_drain_reports_disconnection<T>(pending: Seq<T>)
    ensures
        verdict(Seq::empty(), queued_then(pending, Received::Disconnected)) == Some(
            Err::<Seq<T>, UpdateError>(UpdateError::Disconnected(RECEIVE_FAILED)),
        ),
{
    lemma_verdict_through_items(Seq::empty(), pending, Received::Disconnected);
}

} // verus!
