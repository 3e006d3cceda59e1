//! A computation that finishes once a deadline has passed.
//!
//! `Delay` decides; it does not wait. The first poll before the deadline
//! hands out a `Timer`, and whoever polls must see to it that some thread
//! waits out the timer and then fires it.

use std::sync::Arc;
use std::sync::Mutex;
use std::task::Context;
use std::task::Waker;
use vstd::prelude::*;

use crate::clock::Clock;
use crate::sys::guarded;
use crate::sys::store;

verus! {

/// What a poll of a `Delay` amounts to.
pub enum Verdict {
    /// The deadline has passed.
    Ready,
    /// The deadline lies ahead and this poll is the first to find it so: a
    /// timer starts.
    Armed,
    /// The deadline lies ahead and a timer is out already.
    Waiting,
}

/// The deadline `nanos` nanoseconds after the clock reading `now`, held to
/// the range of the clock.
pub open spec fn deadline_after(now: nat, nanos: nat) -> nat {
    if now + nanos > u64::MAX {
        u64::MAX as nat
    } else {
        now + nanos
    }
}

/// A `Delay` as far as its decisions go.
pub struct DelayState {
    /// The reading of the clock from which on the delay is over.
    pub deadline: nat,
    /// A waker is registered, and a timer has been handed out for it.
    pub armed: bool,
}

impl DelayState {
    /// The verdict of a poll at clock reading `now`.
    pub open spec fn verdict(self, now: nat) -> Verdict {
        if now >= self.deadline {
            Verdict::Ready
        } else if self.armed {
            Verdict::Waiting
        } else {
            Verdict::Armed
        }
    }

    /// The state after a poll at clock reading `now`.
    pub open spec fn after_poll(self, now: nat) -> DelayState {
        if now >= self.deadline {
            self
        } else {
            DelayState { deadline: self.deadline, armed: true }
        }
    }

    /// The state after one poll at each of the readings `nows`, in order.
    pub open spec fn after_polls(self, nows: Seq<nat>) -> DelayState
        decreases nows.len(),
    {
        if nows.len() == 0 {
            self
        } else {
            self.after_poll(nows[0]).after_polls(nows.drop_first())
        }
    }

    /// How many of the polls at the readings `nows`, in order, start a
    /// timer.
    pub open spec fn timers_started(self, nows: Seq<nat>) -> nat
        decreases nows.len(),
    {
        if nows.len() == 0 {
            0
        } else {
            let first: nat = if self.verdict(nows[0]) is Armed {
                1
            } else {
                0
            };
            first + self.after_poll(nows[0]).timers_started(nows.drop_first())
        }
    }
}

/// Polls never move the deadline, and a delay that is armed stays armed.
pub proof fn lemma_polls_keep_deadline(state: DelayState, nows: Seq<nat>)
    ensures
        state.after_polls(nows).deadline == state.deadline,
        state.armed ==> state.after_polls(nows).armed,
    decreases nows.len(),
{
    if nows.len() > 0 {
        lemma_polls_keep_deadline(state.after_poll(nows[0]), nows.drop_first());
    }
}

/// A poll is answered `Ready` exactly when the clock has reached the
/// deadline, however many polls came before it and whenever they came.
pub proof fn lemma_ready_exactly_from_deadline(state: DelayState, earlier: Seq<nat>, now: nat)
    ensures
        state.after_polls(earlier).verdict(now) is Ready <==> now >= state.deadline,
{
    lemma_polls_keep_deadline(state, earlier);
}

/// Over any run of polls a delay starts at most one timer: exactly one if it
/// was not armed and some poll comes before the deadline, and none
/// otherwise.
pub proof fn lemma_at_most_one_timer(state: DelayState, nows: Seq<nat>)
    ensures
        state.timers_started(nows) <= 1,
        state.timers_started(nows) == 1 <==> !state.armed && exists|i: int|
            0 <= i < nows.len() && #[trigger] nows[i] < state.deadline,
    decreases nows.len(),
{
    if nows.len() > 0 {
        let rest = nows.drop_first();
        let next = state.after_poll(nows[0]);
        lemma_at_most_one_timer(next, rest);
        if exists|i: int| 0 <= i < rest.len() && #[trigger] rest[i] < state.deadline {
            let i = choose|i: int| 0 <= i < rest.len() && #[trigger] rest[i] < state.deadline;
            assert(nows[i + 1] < state.deadline);
        }
        if exists|i: int| 0 <= i < nows.len() && #[trigger] nows[i] < state.deadline {
            let i = choose|i: int| 0 <= i < nows.len() && #[trigger] nows[i] < state.deadline;
            if i > 0 {
                assert(rest[i - 1] < state.deadline);
            }
        }
    }
}

/// A leaf computation that is ready once the clock reads `when` or more.
pub struct Delay {
    when: u64,
    waker: Option<Arc<Mutex<Waker>>>,
}

/// The order to wait until a deadline and then wake a task.
///
/// It shares the waker slot of the `Delay` that handed it out, so it wakes
/// whichever waker was registered last.
pub struct Timer {
    when: u64,
    waker: Arc<Mutex<Waker>>,
}

/// The answer of a `Delay` to one poll.
pub enum DelayPoll {
    /// The deadline has passed: the computation is finished.
    Ready,
    /// Not yet, and nobody is waiting for the deadline so far: the caller
    /// has a thread wait out the timer and fire it.
    Armed(Timer),
    /// Not yet; the timer handed out earlier will wake the task.
    Waiting,
}

impl DelayPoll {
    /// The answer without what it carries.
    pub open spec fn verdict(self) -> Verdict {
        match self {
            DelayPoll::Ready => Verdict::Ready,
            DelayPoll::Armed(_) => Verdict::Armed,
            DelayPoll::Waiting => Verdict::Waiting,
        }
    }
}

impl View for Delay {
    type V = DelayState;

    closed spec fn view(&self) -> DelayState {
        DelayState { deadline: self.when as nat, armed: self.waker is Some }
    }
}

impl Timer {
    /// The reading of the clock until which the timer waits.
    pub closed spec fn deadline(&self) -> nat {
        self.when as nat
    }

    /// The timer wakes through the waker slot of `delay`.
    pub closed spec fn serves(&self, delay: &Delay) -> bool {
        delay.waker == Some(self.waker)
    }

    /// How long there is left to wait at clock reading `now`.
    pub fn remaining(&self, now: u64) -> (left: u64)
        ensures
            left == if now < self.deadline() {
                self.deadline() - now
            } else {
                0
            },
    {
        if now < self.when {
            self.when - now
        } else {
            0
        }
    }

    /// How long there is left to wait by `clock`: never more than the
    /// deadline itself.
    pub fn wait_time(&self, clock: &Clock) -> (left: u64)
        ensures
            left <= self.deadline(),
    {
        self.remaining(clock.now())
    }

    /// Wakes the task through the waker that is registered now.
    pub fn fire(&self) {
        let guard = match self.waker.lock() {
            Ok(guard) => guard,
            Err(poisoned) => poisoned.into_inner(),
        };
        guarded(&guard).wake_by_ref();
    }
}

impl Delay {
    /// A delay that is over once the clock reads `when`.
    pub fn new(when: u64) -> (delay: Delay)
        ensures
            delay@ == (DelayState { deadline: when as nat, armed: false }),
    {
        Delay { when, waker: None }
    }

    /// A delay that is over `nanos` nanoseconds after the clock reading
    /// `now`. A deadline beyond the range of the clock stops at `u64::MAX`.
    pub fn after_reading(now: u64, nanos: u64) -> (delay: Delay)
        ensures
            delay@ == (DelayState { deadline: deadline_after(now as nat, nanos as nat), armed: false }),
    {
        let when = if now > u64::MAX - nanos {
            u64::MAX
        } else {
            now + nanos
        };
        Delay::new(when)
    }

    /// A delay that is over `nanos` nanoseconds from now by `clock`: it is
    /// `after_reading` at the present reading, whatever that is.
    pub fn after(clock: &Clock, nanos: u64) -> (delay: Delay)
        ensures
            !delay@.armed,
            exists|now: nat| delay@.deadline == #[trigger] deadline_after(now, nanos as nat),
            delay@.deadline >= nanos,
    {
        let now = clock.now();
        let delay = Delay::after_reading(now, nanos);
        assert(delay@.deadline == deadline_after(now as nat, nanos as nat));
        delay
    }

    /// The reading of the clock from which on the delay is over.
    pub fn deadline(&self) -> (deadline: u64)
        ensures
            deadline == self@.deadline,
    {
        self.when
    }

    /// Polls the delay at clock reading `now`, for the task that `waker`
    /// wakes.
    ///
    /// At or after the deadline the answer is `Ready` and nothing changes.
    /// Before it, the first poll registers `waker` in a new slot and hands
    /// out the timer that wakes through that slot; every later poll puts
    /// `waker` in the place of the registered waker, unless the two wake the
    /// same task anyway, and hands out nothing. The slot itself stays, so a
    /// timer that serves the delay goes on serving it.
    pub fn poll_at(&mut self, now: u64, waker: &Waker) -> (answer: DelayPoll)
        ensures
            answer.verdict() == old(self)@.verdict(now as nat),
            final(self)@ == old(self)@.after_poll(now as nat),
            answer is Ready ==> *final(self) == *old(self),
            answer matches DelayPoll::Armed(timer) ==> timer.deadline() == old(self)@.deadline
                && timer.serves(final(self)),
            forall|timer: Timer| timer.serves(old(self)) ==> timer.serves(final(self)),
    {
        if now >= self.when {
            return DelayPoll::Ready;
        }
        match &self.waker {
            Some(slot) => {
                let mut guard = match slot.lock() {
                    Ok(guard) => guard,
                    Err(poisoned) => poisoned.into_inner(),
                };
                if !guarded(&guard).will_wake(waker) {
                    store(&mut guard, waker.clone());
                }
                DelayPoll::Waiting
            },
            None => {
                let slot = Arc::new(Mutex::new(waker.clone()));
                self.waker = Some(slot.clone());
                DelayPoll::Armed(Timer { when: self.when, waker: slot })
            },
        }
    }

    /// Polls the delay at the present reading of `clock`, for the task of
    /// the waker in `cx`.
    ///
    /// The reading is the clock's affair; whatever it is, the poll is
    /// `poll_at` at that reading.
    pub fn poll(&mut self, clock: &Clock, cx: &mut Context<'_>) -> (answer: DelayPoll)
        ensures
            exists|now: nat|
                {
                    &&& answer.verdict() == old(self)@.verdict(now)
                    &&& final(self)@ == #[trigger] old(self)@.after_poll(now)
                },
            answer is Ready ==> *final(self) == *old(self),
            answer matches DelayPoll::Armed(timer) ==> timer.deadline() == old(self)@.deadline
                && timer.serves(final(self)),
            forall|timer: Timer| timer.serves(old(self)) ==> timer.serves(final(self)),
    {
        let now = clock.now();
        let answer = self.poll_at(now, cx.waker());
        assert(self@ == old(self)@.after_poll(now as nat));
        answer
    }
}

} // verus!
