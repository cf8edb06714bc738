//! The scheduler: wakers and their ready queue, the executor and the reactor.

pub mod executor;
pub mod reactor;
pub mod waker;
