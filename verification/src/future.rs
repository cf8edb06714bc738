//! The polling contract that every asynchronous computation implements.

use crate::runtime::waker::Waker;
use vstd::prelude::*;

verus! {

/// What one call of [`Future::poll`] reports.
#[derive(Debug, PartialEq, Eq)]
pub enum PollState<T> {
    /// The computation is complete; the value now belongs to the caller.
    Ready(T),
    /// No progress can be observed yet. The caller polls again after a wake;
    /// it may see `NotReady` any number of times.
    NotReady,
}

/// A computation that is polled until it reports its one terminal value.
pub trait Future {
    /// The terminal value.
    type Output;

    /// Whether this future has reported `Ready`. Contracts speak of it;
    /// running code has no use for it.
    spec fn resolved(&self) -> bool;

    /// Advances the computation without blocking the calling thread.
    ///
    /// A future that cannot complete arranges for `waker`, or a later one,
    /// to fire when progress becomes possible, and returns `NotReady`. It
    /// is an error to poll a future that has reported `Ready`: callers have
    /// to show that it has not.
    fn poll(&mut self, waker: &Waker) -> (state: PollState<Self::Output>)
        requires
            !old(self).resolved(),
        ensures
            state is Ready <==> final(self).resolved(),
    ;
}

/// A future that has reported `Ready` is not polled again: whatever its
/// `poll` does besides, a poll that takes the future from `before` to `after`
/// and reports `Ready` leaves it resolved, and `poll` does not admit a
/// resolved future.
pub proof fn law_ready_future_is_not_polled_again<F: Future>(
    before: F,
    waker: &Waker,
    state: PollState<F::Output>,
    after: F,
)
    requires
        exists|future: &mut F|
            *future == before && *final(future) == after && #[trigger] call_ensures(
                F::poll,
                (future, waker),
                state,
            ),
        state is Ready,
    ensures
        after.resolved(),
{
}

/// A boxed future is polled through the box, so a task table can hold
/// futures of different types behind `Box<dyn Future<Output = T>>`.
impl<F: Future + ?Sized> Future for Box<F> {
    type Output = F::Output;

    open spec fn resolved(&self) -> bool {
        (**self).resolved()
    }

    /// Polls the future in the box, once and with the same waker: what is
    /// reported, and what has become of the content, is an outcome of the
    /// content's own `poll`, with all that its contract says.
    fn poll(&mut self, waker: &Waker) -> (state: PollState<F::Output>)
        ensures
            exists|content: &mut F|
                &*content == &**old(self) && &*final(content) == &**final(self)
                    && #[trigger] call_ensures(F::poll, (content, waker), state),
    {
        let content: &mut F = &mut **self;
        content.poll(waker)
    }
}

} // verus!
