//! The core of a small cooperative runtime for non-blocking network I/O:
//! the polling contract of a future, a waker, an executor that schedules
//! tasks, a reactor that routes readiness events to wakers, a leaf future
//! for one request, and a coroutine written out as a state machine.
//!
//! Nothing in this crate parks a thread, sleeps or touches a socket. Where
//! the runtime has to park a thread or read from the network, a function
//! here says what has to be done next and the caller does it. The one wait
//! in the crate is for the lock around a ready queue, which is held for the
//! length of one push or pop.

pub mod coroutine;
pub mod future;
pub mod http;
pub mod runtime;

pub use coroutine::async_main;
pub use coroutine::Coroutine0;
pub use future::Future;
pub use future::PollState;
pub use http::Http;
pub use http::HttpGetFuture;
pub use runtime::executor::spawn;
pub use runtime::executor::Executor;
pub use runtime::executor::Task;
pub use runtime::executor::Turn;
pub use runtime::reactor::Reactor;
pub use runtime::waker::ReadyQueue;
pub use runtime::waker::Waker;
