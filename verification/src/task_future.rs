//! A computation together with the record of whether it has finished.

use futures::task::FutureObj;
use std::future::Future;
use std::pin::Pin;
use std::task::Context;
use std::task::Poll;
use vstd::prelude::*;

use crate::sys::box_future;

verus! {

/// What one poll of a computation returned.
#[derive(Clone, Copy, Debug, PartialEq, Eq, Structural)]
pub enum Polled {
    /// The computation has returned its final value.
    Ready,
    /// The computation is suspended. It is up to the computation to have its
    /// waker invoked when it can go on.
    Pending,
}

/// A boxed computation, held until it has finished.
///
/// The computation is dropped as soon as it returns `Ready`, so a finished
/// `TaskFuture` holds nothing that could be polled again.
pub struct TaskFuture {
    future: Option<FutureObj<'static, ()>>,
}

/// `Future::poll` of the computation in a `FutureObj`, with `cx` as its
/// context. The outcome is the computation's own, and so is whatever else it
/// does; a panic in it is not caught.
#[verifier::external_body]
fn poll_future(future: &mut FutureObj<'static, ()>, cx: &mut Context<'_>) -> (outcome: Polled) {
    match Pin::new(future).poll(cx) {
        Poll::Ready(()) => Polled::Ready,
        Poll::Pending => Polled::Pending,
    }
}

impl TaskFuture {
    /// The computation has returned its final value, and is gone.
    pub closed spec fn is_complete(&self) -> bool {
        self.future is None
    }

    /// Boxes `future`; it has not been polled yet.
    pub fn new<F: Future<Output = ()> + Send + 'static>(future: F) -> (task_future: Self)
        ensures
            !task_future.is_complete(),
    {
        TaskFuture { future: Some(box_future(future)) }
    }

    /// Whether the computation has returned its final value.
    pub fn is_done(&self) -> (done: bool)
        ensures
            done == self.is_complete(),
    {
        self.future.is_none()
    }

    /// Records what one poll of the computation returned: `Ready` finishes
    /// the task for good and drops the computation, `Pending` changes
    /// nothing. On a finished task either outcome is ignored.
    pub fn settle(&mut self, outcome: Polled)
        ensures
            final(self).is_complete() <==> old(self).is_complete() || outcome is Ready,
            old(self).is_complete() || outcome is Pending ==> *final(self) == *old(self),
    {
        match outcome {
            Polled::Ready => {
                self.future = None;
            },
            Polled::Pending => {},
        }
    }

    /// Polls the computation once with `cx`, unless it has finished: then
    /// nothing is polled and nothing changes.
    ///
    /// What an unfinished computation returns is its own affair; `settle`
    /// says what becomes of each outcome.
    pub fn poll(&mut self, cx: &mut Context<'_>)
        ensures
            old(self).is_complete() ==> *final(self) == *old(self),
    {
        let outcome = match &mut self.future {
            Some(future) => poll_future(future, cx),
            None => { return ; },
        };
        self.settle(outcome);
    }
}

} // verus!
