//! The executor: a table of tasks and the loop that polls them as their
//! identifiers come off the ready queue.

use std::future::Future;
use std::sync::mpsc::Receiver;
use std::sync::mpsc::Sender;
use vstd::prelude::*;

use crate::task::Task;

verus! {

/// What became of one identifier taken off the ready queue.
#[derive(Clone, Copy, Debug, PartialEq, Eq, Structural)]
pub enum Dispatch {
    /// No task has this identifier; nothing was done.
    Unknown,
    /// The task had finished before; nothing was polled.
    Stale,
    /// The task was polled and is not finished.
    Pending,
    /// The task was polled and finished on this poll.
    Completed,
}

/// The record of one turn of the loop, for stating what a run of the loop
/// amounts to.
pub struct Turn {
    /// The identifier that came off the ready queue.
    pub id: usize,
    /// What became of it.
    pub outcome: Dispatch,
    /// The executor as the turn left it.
    pub after: MiniTokio,
}

/// A single-consumer executor.
///
/// Tasks are identified by their position in the table, in the order in
/// which they were spawned; a task stays in the table when it has finished,
/// so an identifier never comes to mean another task.
pub struct MiniTokio {
    scheduled: Receiver<usize>,
    sender: Sender<usize>,
    tasks: Vec<Task>,
}

impl MiniTokio {
    /// The tasks spawned so far, by identifier.
    pub closed spec fn tasks(&self) -> Seq<Task> {
        self.tasks@
    }

    /// Every task sits at its own identifier.
    pub open spec fn wf(&self) -> bool {
        forall|id: int| 0 <= id < self.tasks().len() ==> (#[trigger] self.tasks()[id]).id() == id
    }

    /// `post` is `self` after the identifier `id` came off the ready queue
    /// and was dealt with as `outcome` says.
    pub open spec fn dispatched(&self, post: &MiniTokio, id: usize, outcome: Dispatch) -> bool {
        let known = id < self.tasks().len();
        &&& post.tasks().len() == self.tasks().len()
        &&& forall|other: int|
            0 <= other < self.tasks().len() && other != id ==> #[trigger] post.tasks()[other]
                == self.tasks()[other]
        &&& outcome is Unknown <==> !known
        &&& outcome is Stale <==> known && self.tasks()[id as int].is_complete()
        &&& outcome is Completed <==> known && !self.tasks()[id as int].is_complete()
            && post.tasks()[id as int].is_complete()
        &&& outcome is Pending <==> known && !self.tasks()[id as int].is_complete()
            && !post.tasks()[id as int].is_complete()
        &&& outcome is Unknown || outcome is Stale ==> *post == *self
    }

    /// The executor as it stands before turn `k` of `course`, which starts
    /// from `self`.
    pub open spec fn before(&self, course: Seq<Turn>, k: int) -> MiniTokio {
        if k <= 0 {
            *self
        } else {
            course[k - 1].after
        }
    }

    /// `course` is a course that the loop can take from `self`: every turn
    /// deals with its identifier, from where the turn before it ended.
    pub open spec fn runs_through(&self, course: Seq<Turn>) -> bool {
        forall|k: int|
            0 <= k < course.len() ==> (#[trigger] self.before(course, k)).dispatched(
                &course[k].after,
                course[k].id,
                course[k].outcome,
            )
    }

    /// `course` takes its identifiers off `queue` in order, oldest first.
    pub open spec fn takes_in_order(course: Seq<Turn>, queue: Seq<usize>) -> bool {
        forall|k: int|
            0 <= k < course.len() && k < queue.len() ==> (#[trigger] course[k]).id == queue[k]
    }

    /// An executor with an empty ready queue and no tasks.
    pub fn new() -> (executor: Self)
        ensures
            executor.wf(),
            executor.tasks().len() == 0,
    {
        let (tx, rx) = std::sync::mpsc::channel();
        MiniTokio { scheduled: rx, sender: tx, tasks: Vec::new() }
    }

    /// The number of tasks spawned so far.
    pub fn task_count(&self) -> (count: usize)
        ensures
            count == self.tasks().len(),
    {
        self.tasks.len()
    }

    /// Whether the task `id` has finished; `None` if there is no such task.
    pub fn is_complete(&self, id: usize) -> (done: Option<bool>)
        ensures
            done == if id < self.tasks().len() {
                Some(self.tasks()[id as int].is_complete())
            } else {
                None
            },
    {
        if id < self.tasks.len() {
            Some(self.tasks[id].is_done())
        } else {
            None
        }
    }

    /// Wraps `future` in a new task and puts the task on the ready queue.
    /// The task gets the next free identifier; no other task changes.
    pub fn spawn<F: Future<Output = ()> + Send + 'static>(&mut self, future: F)
        requires
            old(self).wf(),
        ensures
            final(self).wf(),
            final(self).tasks().len() == old(self).tasks().len() + 1,
            final(self).tasks().drop_last() == old(self).tasks(),
            !final(self).tasks().last().is_complete(),
    {
        let id = self.tasks.len();
        let task = Task::spawn(id, future, &self.sender);
        self.tasks.push(task);
        assert forall|at: int| 0 <= at < self.tasks().len() implies (#[trigger] self.tasks()[at]).id()
            == at by {
            if at < id {
                assert(self.tasks()[at] == old(self).tasks()[at]);
            }
        }
    }

    /// Deals with one identifier taken off the ready queue: polls the task
    /// it names, unless there is no such task or the task has finished.
    pub fn dispatch(&mut self, id: usize) -> (outcome: Dispatch)
        requires
            old(self).wf(),
        ensures
            final(self).wf(),
            old(self).dispatched(final(self), id, outcome),
    {
        if id >= self.tasks.len() {
            return Dispatch::Unknown;
        }
        if self.tasks[id].is_done() {
            return Dispatch::Stale;
        }
        assert(self.tasks()[id as int].id() == id);
        self.tasks[id].poll();
        if self.tasks[id].is_done() {
            Dispatch::Completed
        } else {
            Dispatch::Pending
        }
    }

    /// Takes the next identifier off the ready queue, waiting for one if the
    /// queue is empty, and deals with it. The answer is `None`, and nothing
    /// has changed, when the queue is closed: empty with no producer left.
    ///
    /// Which identifier comes is the queue's affair; `dispatch` says what
    /// becomes of each.
    pub fn turn(&mut self) -> (taken: Option<(usize, Dispatch)>)
        requires
            old(self).wf(),
        ensures
            final(self).wf(),
            taken is None ==> *final(self) == *old(self),
            taken matches Some((id, outcome)) ==> old(self).dispatched(final(self), id, outcome),
    {
        match self.scheduled.recv() {
            Ok(id) => Some((id, self.dispatch(id))),
            Err(_) => None,
        }
    }

    /// Runs the loop: takes turn after turn until the queue is closed or
    /// `max_turns` turns are done, and answers how many were done. An answer
    /// below `max_turns` means that the queue is closed.
    ///
    /// The loop only polls. It never puts a task back on the queue; that is
    /// left to the wakers. A task that had finished before the run is not
    /// touched by it, and what the run does to the others is what its turns
    /// do, one after the other.
    pub fn run(&mut self, max_turns: usize) -> (turns: usize)
        requires
            old(self).wf(),
        ensures
            final(self).wf(),
            turns <= max_turns,
            exists|course: Seq<Turn>|
                {
                    &&& course.len() == turns
                    &&& #[trigger] old(self).runs_through(course)
                    &&& old(self).before(course, turns as int) == *final(self)
                },
            final(self).tasks().len() == old(self).tasks().len(),
            forall|id: int|
                0 <= id < old(self).tasks().len() && (#[trigger] old(self).tasks()[id]).is_complete()
                    ==> final(self).tasks()[id] == old(self).tasks()[id],
    {
        let mut turns: usize = 0;
        let ghost mut course: Seq<Turn> = Seq::empty();
        while turns < max_turns
            invariant
                self.wf(),
                turns <= max_turns,
                course.len() == turns,
                old(self).runs_through(course),
                old(self).before(course, turns as int) == *self,
            decreases max_turns - turns,
        {
            let ghost so_far = course;
            match self.turn() {
                Some((id, outcome)) => {
                    proof {
                        course = so_far.push(Turn { id, outcome, after: *self });
                        assert forall|k: int| 0 <= k < course.len() implies (#[trigger] old(
                            self,
                        ).before(course, k)).dispatched(
                            &course[k].after,
                            course[k].id,
                            course[k].outcome,
                        ) by {
                            if k < so_far.len() {
                                assert(old(self).before(course, k) == old(self).before(so_far, k));
                            }
                        }
                    }
                    turns += 1;
                },
                None => {
                    break ;
                },
            }
        }
        proof {
            assert forall|id: int|
                0 <= id < old(self).tasks().len() && (#[trigger] old(
                    self,
                ).tasks()[id]).is_complete() implies self.tasks()[id] == old(self).tasks()[id] by {
                lemma_finished_task_is_left_alone(*old(self), course, id as usize, 0, turns as int);
            }
            lemma_task_count_is_kept(*old(self), course, turns as int);
        }
        turns
    }
}

/// Turns leave the number of tasks alone.
pub proof fn lemma_task_count_is_kept(start: MiniTokio, course: Seq<Turn>, k: int)
    requires
        start.runs_through(course),
        0 <= k <= course.len(),
    ensures
        start.before(course, k).tasks().len() == start.tasks().len(),
    decreases k,
{
    if k > 0 {
        lemma_task_count_is_kept(start, course, k - 1);
        assert(start.before(course, k - 1).dispatched(
            &course[k - 1].after,
            course[k - 1].id,
            course[k - 1].outcome,
        ));
    }
}

/// A turn changes no task but the one whose identifier it takes: a task is
/// as it was at the start for as long as its identifier has not come off the
/// queue.
pub proof fn lemma_task_waits_untouched(start: MiniTokio, course: Seq<Turn>, id: usize, k: int)
    requires
        start.runs_through(course),
        0 <= k <= course.len(),
        id < start.tasks().len(),
        forall|i: int| 0 <= i < k ==> (#[trigger] course[i]).id != id,
    ensures
        start.before(course, k).tasks().len() == start.tasks().len(),
        start.before(course, k).tasks()[id as int] == start.tasks()[id as int],
    decreases k,
{
    if k > 0 {
        lemma_task_waits_untouched(start, course, id, k - 1);
        assert(start.before(course, k - 1).dispatched(
            &course[k - 1].after,
            course[k - 1].id,
            course[k - 1].outcome,
        ));
    }
}

/// Once a task has finished, no later turn polls it or changes it: a turn
/// that takes its identifier finds it stale.
pub proof fn lemma_finished_task_is_left_alone(
    start: MiniTokio,
    course: Seq<Turn>,
    id: usize,
    k: int,
    j: int,
)
    requires
        start.runs_through(course),
        0 <= k <= j <= course.len(),
        id < start.before(course, k).tasks().len(),
        start.before(course, k).tasks()[id as int].is_complete(),
    ensures
        start.before(course, j).tasks().len() == start.before(course, k).tasks().len(),
        start.before(course, j).tasks()[id as int] == start.before(course, k).tasks()[id as int],
        j < course.len() && course[j].id == id ==> course[j].outcome is Stale,
    decreases j - k,
{
    if j > k {
        lemma_finished_task_is_left_alone(start, course, id, k, j - 1);
        assert(start.before(course, j - 1).dispatched(
            &course[j - 1].after,
            course[j - 1].id,
            course[j - 1].outcome,
        ));
    }
    if j < course.len() {
        assert(start.before(course, j).dispatched(&course[j].after, course[j].id, course[j].outcome));
    }
}

/// Taking the identifier of a finished task off the queue has no effect at
/// all.
pub proof fn lemma_stale_identifier_changes_nothing(
    pre: MiniTokio,
    post: MiniTokio,
    id: usize,
    outcome: Dispatch,
)
    requires
        pre.dispatched(&post, id, outcome),
        id < pre.tasks().len(),
        pre.tasks()[id as int].is_complete(),
    ensures
        outcome is Stale,
        post == pre,
{
}

/// A task that has not finished is polled as soon as its identifier comes
/// off the queue: among the turns that take it, the first one polls.
pub proof fn lemma_dequeued_task_is_polled(start: MiniTokio, course: Seq<Turn>, id: usize, at: int)
    requires
        start.runs_through(course),
        id < start.tasks().len(),
        !start.tasks()[id as int].is_complete(),
        0 <= at < course.len(),
        course[at].id == id,
    ensures
        exists|k: int|
            0 <= k <= at && (#[trigger] course[k]).id == id && (course[k].outcome is Pending
                || course[k].outcome is Completed),
    decreases at,
{
    if exists|i: int| 0 <= i < at && (#[trigger] course[i]).id == id {
        let i = choose|i: int| 0 <= i < at && (#[trigger] course[i]).id == id;
        lemma_dequeued_task_is_polled(start, course, id, i);
    } else {
        lemma_task_waits_untouched(start, course, id, at);
        assert(start.before(course, at).dispatched(
            &course[at].after,
            course[at].id,
            course[at].outcome,
        ));
    }
}

/// A task that has not finished and whose wakers are invoked, once or more
/// often, is polled again: if the ready queue holds `queue` when the first
/// wake arrives, the loop takes identifiers in the order in which they were
/// queued, and it goes on for one turn more than `queue` is long, then one of
/// those turns polls the task.
pub proof fn lemma_woken_task_is_polled(
    start: MiniTokio,
    course: Seq<Turn>,
    queue: Seq<usize>,
    id: usize,
    wakes: nat,
)
    requires
        start.runs_through(course),
        id < start.tasks().len(),
        !start.tasks()[id as int].is_complete(),
        wakes >= 1,
        MiniTokio::takes_in_order(course, queue + Seq::new(wakes, |i: int| id)),
        course.len() > queue.len(),
    ensures
        exists|k: int|
            0 <= k <= queue.len() && (#[trigger] course[k]).id == id && (course[k].outcome is Pending
                || course[k].outcome is Completed),
{
    lemma_dequeued_task_is_polled(start, course, id, queue.len() as int);
}

} // verus!
