//! The executor: a table of tasks, the queue of those that are ready, and
//! the decisions of the scheduling loop.
//!
//! The loop itself belongs to the caller, because between two turns it may
//! have to park its thread:
//!
//! ```text
//! spawn(executor, future)
//! loop: match executor.turn()
//!     Pending, Finished, Skipped => go on
//!     Park => park the thread until a waker has fired, then go on
//!     Done => leave the loop
//! ```

use crate::future::Future;
use crate::future::PollState;
use crate::runtime::waker::ReadyQueue;
use crate::runtime::waker::Waker;
use std::collections::HashMap;
use vstd::prelude::*;

verus! {

broadcast use vstd::std_specs::hash::group_hash_axioms;

/// What one turn of the scheduling loop did, and so what the caller does
/// next.
#[derive(Debug, PartialEq, Eq)]
pub enum Turn {
    /// The task with this id was polled and is not finished. It is back in
    /// the table and waits for its next wake.
    Pending(usize),
    /// The task with this id was polled and has finished with this value. It
    /// has left the table.
    Finished(usize, String),
    /// This id was ready but names no task: the task has finished, or never
    /// existed. Nothing was done.
    Skipped(usize),
    /// No id was ready and tasks remain. The caller parks its thread until
    /// a waker has fired.
    Park,
    /// No id was ready and no task is left. The loop ends.
    Done,
}

/// A top-level future of any type: heap-owned, with its type erased.
pub type Task = Box<dyn Future<Output = String>>;

/// A scheduler for futures of type `F` on one thread.
///
/// Tasks of different types share an executor as [`Task`]s.
pub struct Executor<F> {
    tasks: HashMap<usize, F>,
    ready_queue: ReadyQueue,
    next_id: usize,
    thread: usize,
}

/// How a turn relates the task table before it to the table after it, when
/// `popped` is what the ready queue gave.
///
/// * Nothing ready: the table is unchanged; the turn is `Park` if it holds
///   a task and `Done` if not.
/// * An id without a task: the table is unchanged and the id is skipped.
/// * The id of a task: the task was polled once. If it finished it is gone
///   from the table, and if not it is back under its id, unresolved. The
///   other tasks are untouched.
pub open spec fn turned<F: Future<Output = String>>(
    before: Map<usize, F>,
    popped: Option<usize>,
    after: Map<usize, F>,
    turn: Turn,
) -> bool {
    match popped {
        None => {
            &&& after == before
            &&& before.len() > 0 ==> turn is Park
            &&& before.len() == 0 ==> turn is Done
        },
        Some(id) => if before.contains_key(id) {
            match turn {
                Turn::Pending(polled) => {
                    &&& polled == id
                    &&& after.contains_key(id)
                    &&& !after[id].resolved()
                    &&& after == before.insert(id, after[id])
                },
                Turn::Finished(polled, _) => polled == id && after == before.remove(id),
                _ => false,
            }
        } else {
            after == before && turn == Turn::Skipped(id)
        },
    }
}

/// The turn that ends the poll of task `id` when the poll has answered
/// `state`.
pub open spec fn answer(id: usize, state: PollState<String>) -> Turn {
    match state {
        PollState::NotReady => Turn::Pending(id),
        PollState::Ready(value) => Turn::Finished(id, value),
    }
}

impl<F: Future<Output = String>> Executor<F> {
    /// The tasks that have not finished, by id.
    pub closed spec fn tasks(&self) -> Map<usize, F> {
        self.tasks@
    }

    /// The id that the next spawned task gets.
    pub closed spec fn spec_upcoming_id(&self) -> usize {
        self.next_id
    }

    /// The id that the next spawned task gets.
    #[verifier::when_used_as_spec(spec_upcoming_id)]
    pub fn upcoming_id(&self) -> (id: usize)
        ensures
            id == self.upcoming_id(),
    {
        self.next_id
    }

    /// The key of the thread that runs this executor.
    pub closed spec fn thread(&self) -> usize {
        self.thread
    }

    /// The ready queue that this executor pops from.
    pub closed spec fn queue(&self) -> ReadyQueue {
        self.ready_queue
    }

    /// What holds of an executor at all times: no task in the table has
    /// resolved, and every id in use was handed out.
    pub open spec fn wf(&self) -> bool {
        &&& self.tasks().dom().finite()
        &&& forall|id: usize| #[trigger]
            self.tasks().contains_key(id) ==> !self.tasks()[id].resolved() && id
                < self.upcoming_id()
    }

    /// An executor without tasks, with a ready queue of its own. Its ids
    /// start at zero, and so does the key of its thread.
    pub fn new() -> (executor: Self)
        ensures
            executor.wf(),
            executor.tasks() == Map::<usize, F>::empty(),
            executor.queue().made_empty(),
            executor.upcoming_id() == 0,
            executor.thread() == 0,
    {
        Executor { tasks: HashMap::new(), ready_queue: ReadyQueue::new(), next_id: 0, thread: 0 }
    }

    /// Names the thread that runs this executor. The wakers made from now
    /// on carry the key.
    pub fn set_thread(&mut self, thread: usize)
        ensures
            final(self).thread() == thread,
            final(self).tasks() == old(self).tasks(),
            final(self).upcoming_id() == old(self).upcoming_id(),
            final(self).queue() == old(self).queue(),
    {
        self.thread = thread;
    }

    /// Takes the id that was made ready last off the ready queue: the top
    /// of the list that the lock of the queue hands out, of which the rest
    /// goes back under the lock.
    ///
    /// Wakers push on other threads at any time, so what the list holds is
    /// not determined by this executor: the id may be any, or none.
    pub fn pop_ready(&self) -> (id: Option<usize>)
        ensures
            self.queue().pops(id),
    {
        self.ready_queue.pop()
    }

    /// Takes the task `id` out of the table, if it is there. While a task is
    /// out of the table nobody else can poll it.
    pub fn get_future(&mut self, id: usize) -> (task: Option<F>)
        requires
            old(self).wf(),
        ensures
            final(self).wf(),
            final(self).tasks() == old(self).tasks().remove(id),
            task == (if old(self).tasks().contains_key(id) {
                Some(old(self).tasks()[id])
            } else {
                None
            }),
            final(self).upcoming_id() == old(self).upcoming_id(),
            final(self).thread() == old(self).thread(),
            final(self).queue() == old(self).queue(),
    {
        self.tasks.remove(&id)
    }

    /// A waker for task `id`, bound to this executor's thread and ready
    /// queue.
    pub fn get_waker(&self, id: usize) -> (waker: Waker)
        ensures
            waker.id() == id,
            waker.thread() == self.thread(),
            waker.queue() == self.queue(),
    {
        Waker::new(self.thread, id, self.ready_queue.clone())
    }

    /// Puts `task` into the table under `id`, which it was spawned with.
    pub fn insert_task(&mut self, id: usize, task: F)
        requires
            old(self).wf(),
            !task.resolved(),
            id < old(self).upcoming_id(),
        ensures
            final(self).wf(),
            final(self).tasks() == old(self).tasks().insert(id, task),
            final(self).upcoming_id() == old(self).upcoming_id(),
            final(self).thread() == old(self).thread(),
            final(self).queue() == old(self).queue(),
    {
        self.tasks.insert(id, task);
    }

    /// The number of tasks that have not finished.
    pub fn task_count(&self) -> (count: usize)
        ensures
            count == self.tasks().len(),
    {
        self.tasks.len()
    }

    /// Ends the turn of a task that was taken out of the table under `id` and
    /// polled, with `state` as the answer of the poll: a task that is not
    /// ready goes back into the table under its id, and a task that is ready
    /// is dropped, so that it can never be polled again.
    pub fn settle(&mut self, id: usize, task: F, state: PollState<String>) -> (turn: Turn)
        requires
            old(self).wf(),
            id < old(self).upcoming_id(),
            state is Ready <==> task.resolved(),
        ensures
            final(self).wf(),
            turn == answer(id, state),
            final(self).tasks() == (if state is NotReady {
                old(self).tasks().insert(id, task)
            } else {
                old(self).tasks()
            }),
            final(self).upcoming_id() == old(self).upcoming_id(),
            final(self).thread() == old(self).thread(),
            final(self).queue() == old(self).queue(),
    {
        match state {
            PollState::NotReady => {
                self.insert_task(id, task);
                Turn::Pending(id)
            },
            PollState::Ready(value) => Turn::Finished(id, value),
        }
    }

    /// One turn of the scheduling loop, given what the ready queue gave.
    ///
    /// A ready id is looked up in the table. Without a task the wake was
    /// spurious and is skipped. With one, the task leaves the table, is
    /// polled once with a fresh waker for its id, and goes back only if it is
    /// not finished: a task that has reported `Ready` is never polled again.
    /// When no id is ready, the turn says whether to park or to stop.
    ///
    /// Of the poll the contract says: the answer of the turn is an outcome
    /// of the task's own `poll`, called on the task as the table held it,
    /// with a waker for this id, this thread and this queue; and a task that
    /// is pending is in the table as that poll left it.
    pub fn on_ready(&mut self, popped: Option<usize>) -> (turn: Turn)
        requires
            old(self).wf(),
        ensures
            final(self).wf(),
            turned(old(self).tasks(), popped, final(self).tasks(), turn),
            popped matches Some(id) ==> old(self).tasks().contains_key(id) ==> exists|
                task: &mut F,
                waker: Waker,
                state: PollState<String>,
            |
                {
                    &&& *task == old(self).tasks()[id]
                    &&& waker.id() == id
                    &&& waker.thread() == old(self).thread()
                    &&& waker.queue() == old(self).queue()
                    &&& #[trigger] call_ensures(F::poll, (task, &waker), state)
                    &&& turn == answer(id, state)
                    &&& turn is Pending ==> final(self).tasks()[id] == *final(task)
                },
            final(self).upcoming_id() == old(self).upcoming_id(),
            final(self).thread() == old(self).thread(),
            final(self).queue() == old(self).queue(),
    {
        match popped {
            Some(id) => {
                let mut task = match self.get_future(id) {
                    Some(task) => task,
                    None => {
                        assert(self.tasks() == old(self).tasks());
                        return Turn::Skipped(id);
                    },
                };
                let waker = self.get_waker(id);
                let state = task.poll(&waker);
                let turn = self.settle(id, task, state);
                assert(state is NotReady ==> self.tasks() == old(self).tasks().insert(
                    id,
                    self.tasks()[id],
                ));
                turn
            },
            None => {
                if self.task_count() > 0 {
                    Turn::Park
                } else {
                    Turn::Done
                }
            },
        }
    }

    /// One turn of the scheduling loop: pops the ready queue and acts on
    /// what it gave, as `on_ready` does.
    pub fn turn(&mut self) -> (turn: Turn)
        requires
            old(self).wf(),
        ensures
            final(self).wf(),
            exists|popped: Option<usize>|
                {
                    &&& old(self).queue().pops(popped)
                    &&& #[trigger] turned(old(self).tasks(), popped, final(self).tasks(), turn)
                    &&& popped matches Some(id) ==> old(self).tasks().contains_key(id) ==> exists|
                        task: &mut F,
                        waker: Waker,
                        state: PollState<String>,
                    |
                        {
                            &&& *task == old(self).tasks()[id]
                            &&& waker.id() == id
                            &&& waker.thread() == old(self).thread()
                            &&& waker.queue() == old(self).queue()
                            &&& #[trigger] call_ensures(F::poll, (task, &waker), state)
                            &&& turn == answer(id, state)
                            &&& turn is Pending ==> final(self).tasks()[id] == *final(task)
                        }
                },
            final(self).upcoming_id() == old(self).upcoming_id(),
            final(self).thread() == old(self).thread(),
            final(self).queue() == old(self).queue(),
    {
        let popped = self.pop_ready();
        self.on_ready(popped)
    }
}

/// Makes `future` a task of `executor`: it gets the next id, which no task
/// has had before, enters the table, and its id is pushed onto the ready
/// queue, so that it is polled at least once.
pub fn spawn<F: Future<Output = String>>(executor: &mut Executor<F>, future: F)
    requires
        old(executor).wf(),
        !future.resolved(),
        old(executor).upcoming_id() < usize::MAX,
    ensures
        final(executor).wf(),
        old(executor).queue().pushes(old(executor).upcoming_id()),
        !old(executor).tasks().contains_key(old(executor).upcoming_id()),
        final(executor).tasks() == old(executor).tasks().insert(
            old(executor).upcoming_id(),
            future,
        ),
        final(executor).upcoming_id() == old(executor).upcoming_id() + 1,
        final(executor).thread() == old(executor).thread(),
        final(executor).queue() == old(executor).queue(),
{
    let id: usize = executor.next_id;
    executor.tasks.insert(id, future);
    executor.ready_queue.push(id);
    executor.next_id = id + 1;
}

/// A task that has reported `Ready` is never polled again: the turn in which
/// it finishes takes it out of the table, and a later wake for its id finds
/// no task and changes nothing.
pub proof fn law_finished_task_is_never_polled_again<F: Future<Output = String>>(
    before: Map<usize, F>,
    id: usize,
    after: Map<usize, F>,
    turn: Turn,
    later: Map<usize, F>,
    later_turn: Turn,
)
    requires
        turned(before, Some(id), after, turn),
        turn is Finished,
        turned(after, Some(id), later, later_turn),
    ensures
        !after.contains_key(id),
        later == after,
        later_turn == Turn::Skipped(id),
{
}

/// A wake for an id that names no task, because the task has finished or
/// never existed, is a no-op: the turn that sees the id skips it and leaves
/// every task as it was.
pub proof fn law_spurious_wake_is_harmless<F: Future<Output = String>>(
    before: Map<usize, F>,
    id: usize,
    after: Map<usize, F>,
    turn: Turn,
)
    requires
        !before.contains_key(id),
        turned(before, Some(id), after, turn),
    ensures
        after == before,
        turn == Turn::Skipped(id),
{
}

/// With nothing ready the executor does not spin: while a task is left the
/// turn is `Park`, which sends the thread to sleep until a waker fires, and
/// it is `Done` only when no task is left. Either way no task is touched.
pub proof fn law_idle_executor_parks<F: Future<Output = String>>(
    before: Map<usize, F>,
    after: Map<usize, F>,
    turn: Turn,
)
    requires
        before.dom().finite(),
        turned(before, None, after, turn),
    ensures
        after == before,
        turn is Park <==> exists|id: usize| before.contains_key(id),
        turn is Done <==> before == Map::<usize, F>::empty(),
        turn is Park || turn is Done,
{
    if before.len() == 0 {
        before.dom().lemma_len0_is_empty();
        assert(before == Map::<usize, F>::empty());
    } else {
        assert(before.contains_key(before.dom().choose()));
    }
}

/// One turn polls at most one task, and only the task whose id was ready:
/// every other task is in the table afterwards exactly as before.
pub proof fn law_turn_touches_one_task<F: Future<Output = String>>(
    before: Map<usize, F>,
    popped: Option<usize>,
    after: Map<usize, F>,
    turn: Turn,
    other: usize,
)
    requires
        turned(before, popped, after, turn),
        popped != Some(other),
    ensures
        after.contains_key(other) == before.contains_key(other),
        before.contains_key(other) ==> after[other] == before[other],
{
}

} // verus!
