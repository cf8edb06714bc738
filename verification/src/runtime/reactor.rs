//! The reactor's bookkeeping: which waker answers which operation.
//!
//! The reactor stands between an I/O event source and the executors. A leaf
//! future that has to wait registers its interest with the event source
//! under an operation id and leaves its waker here under the same id. When
//! the event source reports readiness for an id, the waker stored under it
//! is fired. Waiting on the event source is the caller's part; this type
//! keeps the registry and hands out the ids.
//!
//! A reactor is one value that several threads use. It is an exclusive
//! value here, so the caller keeps it behind a lock.

use crate::runtime::waker::Waker;
use std::collections::HashMap;
use vstd::prelude::*;

verus! {

broadcast use vstd::std_specs::hash::group_hash_axioms;

/// The id that the first operation of a new reactor gets.
pub const FIRST_ID: usize = 1;

/// The waker registry and the allocator of operation ids.
pub struct Reactor {
    wakers: HashMap<usize, Waker>,
    next_id: usize,
}

/// The id handed out after `id`: the next integer, starting over at zero
/// after the largest.
pub open spec fn id_after(id: usize) -> usize {
    if id == usize::MAX {
        0
    } else {
        (id + 1) as usize
    }
}

/// The threads to resume when the event source has reported `tokens`, in
/// that order, and `wakers` is registered: one for each token that has a
/// waker.
pub open spec fn resumed(wakers: Map<usize, Waker>, tokens: Seq<usize>) -> Seq<usize>
    decreases tokens.len(),
{
    if tokens.len() == 0 {
        Seq::empty()
    } else {
        let before = resumed(wakers, tokens.drop_last());
        if wakers.contains_key(tokens.last()) {
            before.push(wakers[tokens.last()].thread())
        } else {
            before
        }
    }
}

/// Whether an event for `id` has fired the waker that `wakers` holds for it:
/// if there is one, its task's id was pushed onto its ready queue.
pub open spec fn fired(wakers: Map<usize, Waker>, id: usize) -> bool {
    wakers.contains_key(id) ==> wakers[id].queue().pushes(wakers[id].id())
}

impl Reactor {
    /// The registered wakers, by operation id.
    pub closed spec fn wakers(&self) -> Map<usize, Waker> {
        self.wakers@
    }

    /// The id that the next call of `next_id` returns.
    pub closed spec fn upcoming_id(&self) -> usize {
        self.next_id
    }

    /// A reactor with no waker registered, whose ids start at `FIRST_ID`.
    pub fn new() -> (reactor: Reactor)
        ensures
            reactor.wakers() == Map::<usize, Waker>::empty(),
            reactor.wakers().dom().finite(),
            reactor.upcoming_id() == FIRST_ID,
    {
        Reactor { wakers: HashMap::new(), next_id: FIRST_ID }
    }

    /// Stores a clone of `waker` as the waker of operation `id`.
    ///
    /// The registry keeps one waker for each id: an earlier one under the
    /// same id is dropped and will not fire.
    pub fn set_waker(&mut self, waker: &Waker, id: usize)
        ensures
            final(self).wakers() == old(self).wakers().insert(id, *waker),
            final(self).wakers().dom().finite(),
            final(self).upcoming_id() == old(self).upcoming_id(),
    {
        self.wakers.insert(id, waker.clone());
    }

    /// Removes the waker of operation `id`. The caller takes the handle out
    /// of the event source.
    ///
    /// An operation is deregistered once, when it is complete or given up:
    /// to deregister an id that has no waker is an error, and callers have
    /// to show that it has one.
    pub fn deregister(&mut self, id: usize)
        requires
            old(self).wakers().contains_key(id),
        ensures
            final(self).wakers() == old(self).wakers().remove(id),
            final(self).wakers().dom().finite(),
            final(self).upcoming_id() == old(self).upcoming_id(),
    {
        self.wakers.remove(&id);
    }

    /// Hands out the next operation id.
    pub fn next_id(&mut self) -> (id: usize)
        ensures
            id == old(self).upcoming_id(),
            final(self).upcoming_id() == id_after(id),
            final(self).wakers() == old(self).wakers(),
            final(self).wakers().dom().finite(),
    {
        let id: usize = self.next_id;
        self.next_id = id.wrapping_add(1);
        id
    }

    /// Whether a waker is registered for operation `id`.
    pub fn is_registered(&self, id: usize) -> (registered: bool)
        ensures
            registered == self.wakers().contains_key(id),
    {
        self.wakers.contains_key(&id)
    }

    /// Answers one readiness event: fires the waker of operation `id` and
    /// returns the key of the thread to resume. An event for an id without
    /// a waker is ignored.
    pub fn wake(&self, id: usize) -> (thread: Option<usize>)
        ensures
            fired(self.wakers(), id),
            thread == (if self.wakers().contains_key(id) {
                Some(self.wakers()[id].thread())
            } else {
                None
            }),
    {
        match self.wakers.get(&id) {
            Some(waker) => Some(waker.wake()),
            None => None,
        }
    }

    /// Answers the events of one round of the event source, in order: fires
    /// the waker of each, and returns the keys of the threads to resume.
    pub fn dispatch(&self, tokens: &Vec<usize>) -> (threads: Vec<usize>)
        ensures
            forall|i: int| 0 <= i < tokens@.len() ==> fired(self.wakers(), #[trigger] tokens@[i]),
            threads@ == resumed(self.wakers(), tokens@),
    {
        let mut threads: Vec<usize> = Vec::new();
        let mut i: usize = 0;
        while i < tokens.len()
            invariant
                i <= tokens.len(),
                forall|j: int| 0 <= j < i ==> fired(self.wakers(), #[trigger] tokens@[j]),
                threads@ == resumed(self.wakers(), tokens@.take(i as int)),
            decreases tokens.len() - i,
        {
            assert(tokens@.take(i + 1).drop_last() == tokens@.take(i as int));
            match self.wake(tokens[i]) {
                Some(thread) => {
                    threads.push(thread);
                },
                None => {},
            }
            i += 1;
        }
        assert(tokens@.take(i as int) == tokens@);
        threads
    }
}

/// The registry holds one waker for an operation, the last one registered:
/// registering `second` after `first` under one id leaves the registry as if
/// `first` had never been registered, with a single entry for the id, and an
/// event for the id resumes the thread of `second` once.
pub proof fn law_last_waker_wins(wakers: Map<usize, Waker>, id: usize, first: Waker, second: Waker)
    ensures
        wakers.insert(id, first).insert(id, second) == wakers.insert(id, second),
        wakers.insert(id, first).insert(id, second).dom() == wakers.dom().insert(id),
        wakers.insert(id, first).insert(id, second)[id] == second,
        resumed(wakers.insert(id, first).insert(id, second), seq![id]) == seq![second.thread()],
{
    let both = wakers.insert(id, first).insert(id, second);
    assert(seq![id].drop_last() == Seq::<usize>::empty());
    assert(resumed(both, Seq::<usize>::empty()) == Seq::<usize>::empty());
}

/// An event for an operation that was deregistered, or was never
/// registered, resumes no thread.
pub proof fn law_event_without_waker_is_ignored(wakers: Map<usize, Waker>, id: usize)
    ensures
        resumed(wakers.remove(id), seq![id]) == Seq::<usize>::empty(),
{
    assert(seq![id].drop_last() == Seq::<usize>::empty());
    assert(resumed(wakers.remove(id), Seq::<usize>::empty()) == Seq::<usize>::empty());
}

/// Two ids that are handed out one after the other differ.
pub proof fn law_consecutive_ids_differ(id: usize)
    ensures
        id_after(id) != id,
{
}

} // verus!
