//! The ready queue of an executor and the wakers that feed it.

use std::sync::Arc;
use vstd::prelude::*;
use vstd::rwlock::RwLock;
use vstd::rwlock::RwLockPredicate;
use vstd::rwlock::WriteHandle;

verus! {

/// The ids of the tasks that are ready to be polled, newest last.
///
/// The queue is a stack: `pop` hands out the id that was pushed last. Which
/// of several ready tasks runs first is a matter of fairness only.
pub struct ReadyList {
    ids: Vec<usize>,
}

impl View for ReadyList {
    type V = Seq<usize>;

    closed spec fn view(&self) -> Seq<usize> {
        self.ids@
    }
}

impl ReadyList {
    /// An empty list.
    pub fn new() -> (list: ReadyList)
        ensures
            list@ == Seq::<usize>::empty(),
    {
        ReadyList { ids: Vec::new() }
    }

    /// Puts `id` on top.
    pub fn push(&mut self, id: usize)
        ensures
            final(self)@ == old(self)@.push(id),
    {
        self.ids.push(id);
    }

    /// Takes the id that was pushed last, if there is one.
    pub fn pop(&mut self) -> (id: Option<usize>)
        ensures
            id == top(old(self)@),
            final(self)@ == rest(old(self)@),
    {
        self.ids.pop()
    }
}

/// The id that `pop` returns on `queue`.
pub open spec fn top(queue: Seq<usize>) -> Option<usize> {
    if queue.len() > 0 {
        Some(queue.last())
    } else {
        None
    }
}

/// What `pop` leaves of `queue`.
pub open spec fn rest(queue: Seq<usize>) -> Seq<usize> {
    if queue.len() > 0 {
        queue.drop_last()
    } else {
        queue
    }
}

/// `queue` after each id of `ids` has been pushed, first to last.
pub open spec fn after_pushes(queue: Seq<usize>, ids: Seq<usize>) -> Seq<usize>
    decreases ids.len(),
{
    if ids.len() == 0 {
        queue
    } else {
        after_pushes(queue, ids.drop_last()).push(ids.last())
    }
}

/// The ids that `n` calls of `pop` return on `queue`, in the order of the
/// calls; a call on an empty queue returns none.
pub open spec fn popped(queue: Seq<usize>, n: nat) -> Seq<usize>
    decreases n,
{
    if n == 0 {
        Seq::empty()
    } else {
        match top(queue) {
            Some(id) => seq![id] + popped(rest(queue), (n - 1) as nat),
            None => Seq::empty(),
        }
    }
}

/// `queue` after `n` calls of `pop`.
pub open spec fn after_pops(queue: Seq<usize>, n: nat) -> Seq<usize>
    decreases n,
{
    if n == 0 {
        queue
    } else {
        after_pops(rest(queue), (n - 1) as nat)
    }
}

/// Pushes append: after the ids of `ids` were pushed one by one, the queue
/// holds what it held before, followed by exactly those ids.
pub proof fn lemma_pushes_append(queue: Seq<usize>, ids: Seq<usize>)
    ensures
        after_pushes(queue, ids) == queue + ids,
    decreases ids.len(),
{
    if ids.len() > 0 {
        lemma_pushes_append(queue, ids.drop_last());
    }
}

/// Popping `n` ids off a queue that ends in the `n` ids of `ids` returns
/// them newest first and leaves what was below them.
pub proof fn lemma_pops_reverse(queue: Seq<usize>, ids: Seq<usize>)
    ensures
        popped(queue + ids, ids.len()) == ids.reverse(),
        after_pops(queue + ids, ids.len()) == queue,
    decreases ids.len(),
{
    if ids.len() > 0 {
        let shorter = ids.drop_last();
        assert((queue + ids).drop_last() == queue + shorter);
        lemma_pops_reverse(queue, shorter);
    }
}

/// No wake is lost and none is made up. Let the wakes of `wakes` be fired
/// by any number of threads at once, and let `arrived` be the order in
/// which the lock let their pushes through: any order. When the consumer then
/// pops as many ids as were fired, it sees each id exactly as often as it was
/// fired, without a repeat if the ids differ, and the queue is as it was
/// before the wakes.
///
/// Each wake is one push and each pop one pop of the list that the lock
/// hands out (`ReadyQueue::pushes`, `ReadyQueue::pops`). That the lock hands
/// out the list that it took back last is the lock's part.
pub proof fn law_every_wake_is_seen_once(
    queue: Seq<usize>,
    wakes: Seq<usize>,
    arrived: Seq<usize>,
)
    requires
        arrived.to_multiset() == wakes.to_multiset(),
    ensures
        popped(after_pushes(queue, arrived), wakes.len()).to_multiset() == wakes.to_multiset(),
        popped(after_pushes(queue, arrived), wakes.len()).len() == wakes.len(),
        wakes.no_duplicates() ==> popped(after_pushes(queue, arrived), wakes.len()).no_duplicates(),
        after_pops(after_pushes(queue, arrived), wakes.len()) == queue,
{
    wakes.to_multiset_ensures();
    arrived.to_multiset_ensures();
    lemma_pushes_append(queue, arrived);
    lemma_pops_reverse(queue, arrived);
    arrived.lemma_reverse_to_multiset();
    let seen = popped(after_pushes(queue, arrived), wakes.len());
    if wakes.no_duplicates() {
        wakes.lemma_multiset_has_no_duplicates();
        seen.lemma_multiset_has_no_duplicates_conv();
    }
}

/// What the lock around a ready list admits: any list.
pub struct AnyList;

impl RwLockPredicate<ReadyList> for AnyList {
    open spec fn inv(self, list: ReadyList) -> bool {
        true
    }
}

/// `Arc::clone` of std: another pointer to the same allocation, so the
/// result stands for the same lock as `list`.
#[verifier::external_body]
fn same_list(list: &Arc<RwLock<ReadyList, AnyList>>) -> (other: Arc<RwLock<ReadyList, AnyList>>)
    ensures
        other == *list,
{
    Arc::clone(list)
}

/// A handle to the ready queue of one executor.
///
/// The executor and every waker it has issued hold a handle to the same
/// list. Wakers fire on any thread, so each access takes the lock around the
/// list for the length of one `push` or `pop`.
pub struct ReadyQueue {
    list: Arc<RwLock<ReadyList, AnyList>>,
}

impl ReadyQueue {
    /// The lock around the list.
    pub closed spec fn lock(&self) -> RwLock<ReadyList, AnyList> {
        *self.list
    }

    /// Whether the lock of this queue was made around an empty list, as `new`
    /// makes it. This speaks of how the queue began, not of what the list
    /// holds now: it stays true of a queue whatever is pushed later.
    pub open spec fn made_empty(&self) -> bool {
        exists|list: ReadyList|
            list@ == Seq::<usize>::empty() && #[trigger] call_ensures(
                RwLock::<ReadyList, AnyList>::new,
                (list, Ghost(AnyList)),
                self.lock(),
            )
    }

    /// Whether `pop` can return `id`: the lock hands out a list of which
    /// `id` is the top, and takes back the rest of it.
    pub open spec fn pops(&self, id: Option<usize>) -> bool {
        exists|list: ReadyList, handle: WriteHandle<ReadyList, AnyList>, left: ReadyList|
            id == top(list@) && left@ == rest(list@) && #[trigger] call_ensures(
                RwLock::<ReadyList, AnyList>::acquire_write,
                (&self.lock(),),
                (list, handle),
            ) && #[trigger] call_ensures(
                WriteHandle::<ReadyList, AnyList>::release_write,
                (handle, left),
                (),
            )
    }

    /// Whether `push` of `id` has taken place: the lock hands out a list and
    /// takes it back with `id` on top, the rest unchanged and in order.
    pub open spec fn pushes(&self, id: usize) -> bool {
        exists|list: ReadyList, handle: WriteHandle<ReadyList, AnyList>, after: ReadyList|
            after@ == list@.push(id) && #[trigger] call_ensures(
                RwLock::<ReadyList, AnyList>::acquire_write,
                (&self.lock(),),
                (list, handle),
            ) && #[trigger] call_ensures(
                WriteHandle::<ReadyList, AnyList>::release_write,
                (handle, after),
                (),
            )
    }

    /// A handle to a new queue: a lock that is made around an empty list.
    pub fn new() -> (queue: ReadyQueue)
        ensures
            queue.made_empty(),
    {
        let list = ReadyList::new();
        let ghost empty = list;
        let lock = RwLock::new(list, Ghost(AnyList));
        let queue = ReadyQueue { list: Arc::new(lock) };
        assert(call_ensures(
            RwLock::<ReadyList, AnyList>::new,
            (empty, Ghost(AnyList)),
            queue.lock(),
        ));
        queue
    }

    /// Pushes `id` under the lock: takes the list out of the lock, puts `id`
    /// on top, and puts the list back.
    pub fn push(&self, id: usize)
        ensures
            self.pushes(id),
    {
        let (mut list, lock) = self.list.acquire_write();
        let ghost held = list;
        list.push(id);
        let ghost after = list;
        lock.release_write(list);
        assert(call_ensures(
            RwLock::<ReadyList, AnyList>::acquire_write,
            (&self.lock(),),
            (held, lock),
        ) && call_ensures(WriteHandle::<ReadyList, AnyList>::release_write, (lock, after), ()));
    }

    /// Pops the id that was pushed last under the lock: takes the list out
    /// of the lock, returns its top, and puts the rest back.
    ///
    /// Other threads may push at any time, so what the list holds is not
    /// known before the call: callers handle every id, and none.
    pub fn pop(&self) -> (id: Option<usize>)
        ensures
            self.pops(id),
    {
        let (mut list, lock) = self.list.acquire_write();
        let ghost held = list;
        let id = list.pop();
        let ghost left = list;
        lock.release_write(list);
        assert(call_ensures(
            RwLock::<ReadyList, AnyList>::acquire_write,
            (&self.lock(),),
            (held, lock),
        ) && call_ensures(WriteHandle::<ReadyList, AnyList>::release_write, (lock, left), ()));
        id
    }
}

impl Clone for ReadyQueue {
    /// Another handle to the same queue.
    fn clone(&self) -> (other: ReadyQueue)
        ensures
            other == *self,
    {
        ReadyQueue { list: same_list(&self.list) }
    }
}

/// The handle by which a suspended task is marked ready again.
///
/// A waker names the task to enqueue and the thread that runs the task's
/// executor, and shares the executor's ready queue. The thread is named by
/// a key that the caller who parks and resumes threads has chosen. A waker
/// may be cloned and fired any number of times, on any thread.
pub struct Waker {
    thread: usize,
    id: usize,
    ready_queue: ReadyQueue,
}

impl Waker {
    /// A waker for task `id` of the executor that runs on `thread` and
    /// pops from `ready_queue`.
    pub fn new(thread: usize, id: usize, ready_queue: ReadyQueue) -> (waker: Waker)
        ensures
            waker.thread() == thread,
            waker.id() == id,
            waker.queue() == ready_queue,
    {
        Waker { thread, id, ready_queue }
    }

    /// The key of the thread to resume.
    pub closed spec fn spec_thread(&self) -> usize {
        self.thread
    }

    /// The key of the thread to resume.
    #[verifier::when_used_as_spec(spec_thread)]
    pub fn thread(&self) -> (thread: usize)
        ensures
            thread == self.thread(),
    {
        self.thread
    }

    /// The task that this waker makes ready.
    pub closed spec fn spec_id(&self) -> usize {
        self.id
    }

    /// The task that this waker makes ready.
    #[verifier::when_used_as_spec(spec_id)]
    pub fn id(&self) -> (id: usize)
        ensures
            id == self.id(),
    {
        self.id
    }

    /// The queue that this waker pushes to.
    pub closed spec fn queue(&self) -> ReadyQueue {
        self.ready_queue
    }

    /// Pushes the task's id onto the ready queue and returns the key of the
    /// thread that the caller now has to resume.
    ///
    /// Firing is always allowed: for a task that is already complete the id
    /// finds no task in the executor's table and is skipped there.
    pub fn wake(&self) -> (thread: usize)
        ensures
            self.queue().pushes(self.id()),
            thread == self.thread(),
    {
        self.ready_queue.push(self.id);
        self.thread
    }
}

impl Clone for Waker {
    /// A waker for the same task, thread and queue.
    fn clone(&self) -> (other: Waker)
        ensures
            other == *self,
    {
        Waker { thread: self.thread, id: self.id, ready_queue: self.ready_queue.clone() }
    }
}

} // verus!
