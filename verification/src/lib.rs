//! A minimal cooperative task executor.
//!
//! A `MiniTokio` keeps a table of tasks and a ready queue of task
//! identifiers. Its loop takes identifiers off the queue one by one and polls
//! the task each of them names; a task that is not finished is polled again
//! only after one of its wakers has put its identifier back on the queue.
//! `Delay` is a leaf computation for such tasks to wait on.

pub mod clock;
pub mod delay;
pub mod executor;
pub mod sys;
pub mod task;
pub mod task_future;

pub use clock::Clock;
pub use delay::Delay;
pub use delay::DelayPoll;
pub use delay::DelayState;
pub use delay::Timer;
pub use delay::Verdict;
pub use executor::Dispatch;
pub use executor::MiniTokio;
pub use executor::Turn;
pub use task::Task;
pub use task::TaskHandle;
pub use task_future::Polled;
pub use task_future::TaskFuture;
