//! The pieces of `std` and of `futures` that the executor is built on.
//!
//! Everything in this module is taken on trust: the types are opaque to the
//! verifier, and of the functions it knows only what is written here. None of
//! them promises anything about its result, because each result depends on
//! what other threads, the clock or a user's computation do.

use futures::task::FutureObj;
use std::future::Future;
use std::ops::Deref;
use std::ops::DerefMut;
use std::sync::mpsc::Receiver;
use std::sync::mpsc::RecvError;
use std::sync::mpsc::SendError;
use std::sync::mpsc::Sender;
use std::sync::Mutex;
use std::sync::MutexGuard;
use std::sync::PoisonError;
use std::task::Context;
use std::task::Waker;
use std::time::Duration;
use std::time::Instant;
use vstd::prelude::*;

verus! {

/// `std::task::Waker`, opaque.
#[verifier::external_type_specification]
#[verifier::external_body]
pub struct ExWaker(Waker);

/// `std::task::Context`, opaque.
#[verifier::external_type_specification]
#[verifier::external_body]
pub struct ExContext<'a>(Context<'a>);

/// `std::sync::mpsc::Sender`, opaque: a producer endpoint of a channel.
#[verifier::external_type_specification]
#[verifier::external_body]
#[verifier::reject_recursive_types(T)]
pub struct ExSender<T>(Sender<T>);

/// `std::sync::mpsc::Receiver`, opaque: the consumer endpoint of a channel.
#[verifier::external_type_specification]
#[verifier::external_body]
#[verifier::reject_recursive_types(T)]
pub struct ExReceiver<T>(Receiver<T>);

/// `std::sync::mpsc::SendError`, opaque.
#[verifier::external_type_specification]
#[verifier::external_body]
#[verifier::reject_recursive_types(T)]
pub struct ExSendError<T>(SendError<T>);

/// `std::sync::mpsc::RecvError`, opaque.
#[verifier::external_type_specification]
#[verifier::external_body]
pub struct ExRecvError(RecvError);

/// `std::sync::Mutex`, opaque.
#[verifier::external_type_specification]
#[verifier::external_body]
#[verifier::reject_recursive_types(T)]
pub struct ExMutex<T: ?Sized>(Mutex<T>);

/// `std::sync::MutexGuard`, opaque.
#[verifier::external_type_specification]
#[verifier::external_body]
#[verifier::reject_recursive_types(T)]
pub struct ExMutexGuard<'a, T: ?Sized + 'a>(MutexGuard<'a, T>);

/// `std::sync::PoisonError`, opaque.
#[verifier::external_type_specification]
#[verifier::external_body]
#[verifier::reject_recursive_types(T)]
pub struct ExPoisonError<T>(PoisonError<T>);

/// `std::time::Instant`, opaque.
#[verifier::external_type_specification]
#[verifier::external_body]
pub struct ExInstant(Instant);

/// `futures::task::FutureObj`, opaque: an owned, `Send` computation behind one
/// level of heap indirection.
#[verifier::external_type_specification]
#[verifier::external_body]
#[verifier::reject_recursive_types(T)]
pub struct ExFutureObj<'a, T>(FutureObj<'a, T>);

/// `std::sync::mpsc::channel` makes a new channel and returns its two
/// endpoints. Nothing is claimed of them.
pub assume_specification<T>[ std::sync::mpsc::channel::<T> ]() -> (ends: (Sender<T>, Receiver<T>));

/// `Sender::send` hands a value to the channel without blocking. It fails
/// when the receiver is gone; which of the two happens is not claimed.
pub assume_specification<T>[ Sender::<T>::send ](tx: &Sender<T>, t: T) -> (sent: Result<
    (),
    SendError<T>,
>);

/// `Sender::clone` makes another producer endpoint of the same channel.
pub assume_specification<T>[ <Sender<T> as Clone>::clone ](tx: &Sender<T>) -> (other: Sender<T>);

/// `Receiver::recv` blocks until a value arrives, or fails once every
/// producer endpoint is gone and the channel is empty. While producers live
/// and send nothing the call does not return. Nothing is claimed of the
/// value.
pub assume_specification<T>[ Receiver::<T>::recv ](rx: &Receiver<T>) -> (got: Result<T, RecvError>);

/// `Mutex::new` makes an unlocked mutex around a value.
pub assume_specification<T>[ Mutex::<T>::new ](t: T) -> (m: Mutex<T>);

/// `Mutex::lock` blocks until the calling thread holds the mutex. The result
/// is an error when an earlier holder panicked; the error still carries the
/// guard. The caller must not hold this mutex already.
pub assume_specification<'a, T: ?Sized>[ Mutex::<T>::lock ](m: &'a Mutex<T>) -> (guard: Result<
    MutexGuard<'a, T>,
    PoisonError<MutexGuard<'a, T>>,
>);

/// `PoisonError::into_inner` gives up the guard that the error carries.
pub assume_specification<T>[ PoisonError::<T>::into_inner ](e: PoisonError<T>) -> (inner: T);

/// `Waker::clone` makes another waker for the same task.
pub assume_specification[ <Waker as Clone>::clone ](w: &Waker) -> (other: Waker);

/// `Waker::will_wake` compares two wakers on a best-effort basis: `true`
/// means they wake the same task, `false` decides nothing.
pub assume_specification[ Waker::will_wake ](w: &Waker, other: &Waker) -> (same: bool);

/// `Waker::wake_by_ref` signals that the waker's task is ready to be polled.
/// What that does is up to whoever made the waker.
pub assume_specification[ Waker::wake_by_ref ](w: &Waker);

/// `Context::from_waker` makes a polling context that hands out `waker`.
pub assume_specification<'a>[ Context::<'a>::from_waker ](waker: &'a Waker) -> (cx: Context<'a>);

/// `Context::waker` is the waker of the current poll.
pub assume_specification<'a, 'b>[ Context::<'a>::waker ](cx: &'b Context<'a>) -> (w: &'a Waker);

/// `Instant::now` reads the monotonic clock.
pub assume_specification[ Instant::now ]() -> (t: Instant);

/// `Instant::elapsed` is the time that has passed since the instant was
/// taken.
pub assume_specification[ Instant::elapsed ](t: &Instant) -> (d: Duration);

/// `Duration::as_nanos` is the duration in whole nanoseconds.
pub assume_specification[ Duration::as_nanos ](d: &Duration) -> (n: u128);

/// `FutureObj::new` on a boxed computation: `future` moves to the heap and
/// is owned by the result.
#[verifier::external_body]
pub(crate) fn box_future<F: Future<Output = ()> + Send + 'static>(future: F) -> (boxed: FutureObj<
    'static,
    (),
>) {
    FutureObj::new(Box::new(future))
}

/// `MutexGuard::deref`: the waker that the held mutex protects.
#[verifier::external_body]
pub(crate) fn guarded<'a>(guard: &'a MutexGuard<'_, Waker>) -> (waker: &'a Waker) {
    Deref::deref(guard)
}

/// `MutexGuard::deref_mut`, assigned to: `waker` takes the place of the
/// waker that the held mutex protects, and that one is dropped.
#[verifier::external_body]
pub(crate) fn store(guard: &mut MutexGuard<'_, Waker>, waker: Waker) {
    *DerefMut::deref_mut(guard) = waker;
}

} // verus!
