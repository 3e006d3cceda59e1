//! Tasks, and the handles by which wakers put them back on the ready queue.

use futures::task::ArcWake;
use std::future::Future;
use std::sync::mpsc::Sender;
use std::sync::Arc;
use std::task::Context;
use std::task::Waker;
use vstd::prelude::*;

use crate::task_future::TaskFuture;

verus! {

/// What a waker holds of a task: the task's identifier and a producer
/// endpoint of the ready queue.
///
/// Two handles stand for the same task exactly when their identifiers are
/// equal.
pub struct TaskHandle {
    id: usize,
    executor: Sender<usize>,
}

impl TaskHandle {
    /// The identifier of the task that this handle stands for.
    pub closed spec fn id(&self) -> usize {
        self.id
    }

    /// The identifier of the task that this handle stands for.
    pub fn task_id(&self) -> (id: usize)
        ensures
            id == self.id(),
    {
        self.id
    }

    /// Pushes the task's identifier onto the ready queue. The answer is
    /// `false` when the queue has lost its consumer.
    pub fn schedule(&self) -> (queued: bool) {
        self.executor.send(self.id).is_ok()
    }
}

/// What a waker made from a handle does when it is invoked: it puts the
/// task back on the ready queue. Nothing else is touched, so a waker may be
/// invoked from any thread and any number of times.
impl ArcWake for TaskHandle {
    fn wake_by_ref(arc_self: &Arc<Self>) {
        let _ = arc_self.schedule();
    }
}

/// `futures::task::waker` of a task handle: a waker that calls the handle's
/// `ArcWake` methods when it is invoked. Nothing is claimed of it here.
#[verifier::external_body]
fn handle_waker(handle: Arc<TaskHandle>) -> (waker: Waker) {
    futures::task::waker(handle)
}

/// One spawned computation: its state and the handle that wakers share.
pub struct Task {
    task_future: TaskFuture,
    handle: Arc<TaskHandle>,
}

impl Task {
    /// The identifier under which the ready queue knows the task.
    pub closed spec fn id(&self) -> usize {
        self.handle.id()
    }

    /// The computation has returned its final value.
    pub closed spec fn is_complete(&self) -> bool {
        self.task_future.is_complete()
    }

    /// The handle that the wakers of the task share.
    pub closed spec fn handle(&self) -> TaskHandle {
        *self.handle
    }

    /// Wraps `future` in a new task with identifier `id`, and pushes the
    /// task onto the ready queue that `sender` leads to.
    pub fn spawn<F: Future<Output = ()> + Send + 'static>(
        id: usize,
        future: F,
        sender: &Sender<usize>,
    ) -> (task: Task)
        ensures
            task.id() == id,
            !task.is_complete(),
    {
        let handle = TaskHandle { id, executor: sender.clone() };
        let task = Task { task_future: TaskFuture::new(future), handle: Arc::new(handle) };
        let _ = task.schedule();
        task
    }

    /// The identifier under which the ready queue knows the task.
    pub fn task_id(&self) -> (id: usize)
        ensures
            id == self.id(),
    {
        self.handle.task_id()
    }

    /// Whether the computation has returned its final value.
    pub fn is_done(&self) -> (done: bool)
        ensures
            done == self.is_complete(),
    {
        self.task_future.is_done()
    }

    /// Polls the computation once, with a waker made from the task's handle,
    /// unless the task has finished: then it is left exactly as it is. The
    /// handle stays the same in either case, so the wakers of all polls wake
    /// the same task.
    pub fn poll(&mut self)
        ensures
            final(self).handle() == old(self).handle(),
            final(self).id() == old(self).id(),
            old(self).is_complete() ==> *final(self) == *old(self),
    {
        let waker = handle_waker(self.handle.clone());
        let mut cx = Context::from_waker(&waker);
        self.task_future.poll(&mut cx);
    }

    /// Pushes the task onto the ready queue: what each of its wakers does.
    /// The answer is `false` when the queue has lost its consumer.
    pub fn schedule(&self) -> (queued: bool) {
        self.handle.schedule()
    }
}

} // verus!
