//! The state shared by all workers: the FIFO of ready tasks, the exit flag,
//! and the condition variable on which idle workers sleep.

use crate::worker::WorkerAction;
use parking_lot::Condvar;
use std::collections::VecDeque;
use std::sync::Arc;
use vstd::prelude::*;

verus! {

/// The condition variable of parking_lot. Nothing is known of its waiters.
#[verifier::external_type_specification]
#[verifier::external_body]
pub struct ExCondvar(Condvar);

/// A fresh condition variable of parking_lot, from `Condvar::new`: nobody
/// waits on it.
#[verifier::external_body]
fn condvar() -> (condvar: Condvar) {
    Condvar::new()
}

/// `Condvar::notify_one`: wakes one thread that is blocked on the condition
/// variable, if there is any, and says whether it woke one. Whether one is
/// blocked depends on the other threads.
#[verifier::external_body]
fn notify_one(condvar: &Condvar) -> (woken: bool) {
    condvar.notify_one()
}

/// `Condvar::notify_all`: wakes every thread that is blocked on the
/// condition variable and says how many there were.
#[verifier::external_body]
fn notify_all(condvar: &Condvar) -> (woken: usize) {
    condvar.notify_all()
}

/// The ready queue of a pool together with its exit flag and the condition
/// variable that signals its changes.
///
/// The value is sequential: whoever shares it between threads keeps it
/// behind a lock, and lets a worker sleep on the condition variable, with
/// that lock, between [`Shared::wait`] and [`Shared::wake`].
pub struct Shared<T> {
    queue: VecDeque<T>,
    exit: bool,
    condvar: Arc<Condvar>,
}

impl<T> View for Shared<T> {
    type V = Seq<T>;

    /// The ready tasks, head first.
    closed spec fn view(&self) -> Seq<T> {
        self.queue@
    }
}

impl<T> Shared<T> {
    /// Whether the exit flag is set.
    pub closed spec fn exited(&self) -> bool {
        self.exit
    }

    /// An empty queue whose exit flag is clear.
    pub fn new() -> (shared: Self)
        ensures
            shared@ == Seq::<T>::empty(),
            !shared.exited(),
    {
        Shared { queue: VecDeque::new(), exit: false, condvar: Arc::new(condvar()) }
    }

    /// The condition variable on which idle workers sleep. It is signalled
    /// once for every task that enters the queue, and for all sleepers when
    /// the exit flag is set.
    pub fn condvar(&self) -> (condvar: &Arc<Condvar>)
        ensures
            *condvar == self.signal(),
    {
        &self.condvar
    }

    /// The condition variable of the queue: the one that is signalled when
    /// a task enters the queue or the exit flag is set. A queue keeps the one
    /// it was made with.
    pub closed spec fn signal(&self) -> Arc<Condvar> {
        self.condvar
    }

    /// Reads the exit flag.
    pub fn should_exit(&self) -> (exit: bool)
        ensures
            exit == self.exited(),
    {
        self.exit
    }

    /// The number of ready tasks.
    pub fn len(&self) -> (n: usize)
        ensures
            n == self@.len(),
    {
        self.queue.len()
    }

    /// Takes the head of the queue without regard to the exit flag.
    pub fn try_get(&mut self) -> (task: Option<T>)
        ensures
            final(self).exited() == old(self).exited(),
            final(self).signal() == old(self).signal(),
            old(self)@.len() == 0 ==> task is None && final(self)@ == old(self)@,
            old(self)@.len() > 0 ==> task == Some(old(self)@[0]) && final(self)@ == old(
                self,
            )@.subrange(1, old(self)@.len() as int),
    {
        self.queue.pop_front()
    }

    /// Asks for work without blocking.
    ///
    /// `Some(Exit)` once the exit flag is set, else `Some(Run(..))` with the
    /// head of the queue; `None` when the queue is empty, and the worker has to
    /// sleep until it is signalled and then call [`Shared::wake`].
    pub fn wait(&mut self) -> (action: Option<WorkerAction<T>>)
        ensures
            final(self).exited() == old(self).exited(),
            final(self).signal() == old(self).signal(),
            action == Self::answer(old(self).exited(), old(self)@, None),
            final(self)@ == Self::rest(old(self).exited(), old(self)@),
    {
        if self.exit {
            Some(WorkerAction::Exit)
        } else {
            match self.queue.pop_front() {
                Some(task) => Some(WorkerAction::Run(task)),
                None => None,
            }
        }
    }

    /// Asks for work after a sleep on the condition variable has ended.
    ///
    /// As [`Shared::wait`], but an empty queue gives `Retry`: the signal that
    /// ended the sleep belonged to a task that a peer has taken. One peer is
    /// signalled in turn, and the caller asks again.
    pub fn wake(&mut self) -> (action: WorkerAction<T>)
        ensures
            final(self).exited() == old(self).exited(),
            final(self).signal() == old(self).signal(),
            Some(action) == Self::answer(old(self).exited(), old(self)@, Some(WorkerAction::Retry)),
            final(self)@ == Self::rest(old(self).exited(), old(self)@),
    {
        if self.exit {
            WorkerAction::Exit
        } else {
            match self.queue.pop_front() {
                Some(task) => WorkerAction::Run(task),
                None => {
                    notify_one(&self.condvar);
                    WorkerAction::Retry
                },
            }
        }
    }

    /// The answer to a worker on a queue `queue` with exit flag `exit`, where
    /// `idle` is the answer on an empty queue.
    pub open spec fn answer(exit: bool, queue: Seq<T>, idle: Option<WorkerAction<T>>) -> Option<
        WorkerAction<T>,
    > {
        if exit {
            Some(WorkerAction::Exit)
        } else if queue.len() > 0 {
            Some(WorkerAction::Run(queue[0]))
        } else {
            idle
        }
    }

    /// The queue that an answer leaves behind: the head is gone exactly when
    /// it was handed out.
    pub open spec fn rest(exit: bool, queue: Seq<T>) -> Seq<T> {
        if !exit && queue.len() > 0 {
            queue.subrange(1, queue.len() as int)
        } else {
            queue
        }
    }

    /// Appends `task` to the tail of the queue and signals one sleeping
    /// worker. To submit after shutdown is the submitter's error: whoever may
    /// meet an exited pool reads the exit flag first.
    pub fn schedule(&mut self, task: T)
        requires
            !old(self).exited(),
        ensures
            final(self).exited() == old(self).exited(),
            final(self).signal() == old(self).signal(),
            final(self)@ == old(self)@.push(task),
    {
        self.queue.push_back(task);
        notify_one(&self.condvar);
    }

    /// Sets the exit flag, wakes every sleeping worker, and says whether the
    /// flag was set before. The queue stays as it is.
    pub fn close(&mut self) -> (was_closed: bool)
        ensures
            final(self).exited(),
            final(self).signal() == old(self).signal(),
            was_closed == old(self).exited(),
            final(self)@ == old(self)@,
    {
        let was_closed = self.exit;
        self.exit = true;
        notify_all(&self.condvar);
        was_closed
    }

    /// Empties the queue and hands out what was in it, head first.
    pub fn clean(&mut self) -> (left: Vec<T>)
        ensures
            final(self).exited() == old(self).exited(),
            final(self).signal() == old(self).signal(),
            final(self)@.len() == 0,
            left@ == old(self)@,
    {
        let mut left: Vec<T> = Vec::new();
        while self.queue.len() > 0
            invariant
                self.exit == old(self).exit,
                self.condvar == old(self).condvar,
                left@ + self.queue@ == old(self).queue@,
            decreases self.queue@.len(),
        {
            if let Some(task) = self.queue.pop_front() {
                left.push(task);
            }
        }
        left
    }
}

/// The queue that `served` answers leave of `queue` while the exit flag is
/// clear.
pub open spec fn after_answers<T>(queue: Seq<T>, served: nat) -> Seq<T>
    decreases served,
{
    if served == 0 {
        queue
    } else {
        Shared::<T>::rest(false, after_answers(queue, (served - 1) as nat))
    }
}

/// The ready queue is first in, first out: while the exit flag is clear, the
/// answers hand the tasks out in the order in which they were scheduled, one
/// answer for each. A task scheduled behind `queue` is handed out after all
/// of `queue` and before a task scheduled later.
pub proof fn lemma_first_in_first_out<T>(queue: Seq<T>, served: nat)
    requires
        served < queue.len(),
    ensures
        after_answers(queue, served) == queue.skip(served as int),
        Shared::<T>::answer(false, after_answers(queue, served), None) == Some(
            WorkerAction::Run(queue[served as int]),
        ),
    decreases served,
{
    if served > 0 {
        lemma_first_in_first_out(queue, (served - 1) as nat);
    }
}

/// Two tasks scheduled one after the other leave the queue in that order,
/// with nothing between them: `first` is the answer once what was queued
/// before is handed out, `second` is the next answer.
pub proof fn lemma_submission_order<T>(queue: Seq<T>, first: T, second: T)
    ensures
        Shared::<T>::answer(
            false,
            after_answers(queue.push(first).push(second), queue.len()),
            None,
        ) == Some(WorkerAction::Run(first)),
        Shared::<T>::answer(
            false,
            after_answers(queue.push(first).push(second), queue.len() + 1),
            None,
        ) == Some(WorkerAction::Run(second)),
{
    let both = queue.push(first).push(second);
    lemma_first_in_first_out(both, queue.len());
    lemma_first_in_first_out(both, queue.len() + 1);
}

/// Once the exit flag is set no task leaves the queue through an answer:
/// every answer is `Exit`, and the queue stays as it is until it is drained.
pub proof fn lemma_exit_stops_dispatch<T>(queue: Seq<T>, idle: Option<WorkerAction<T>>)
    ensures
        Shared::<T>::answer(true, queue, idle) == Some(WorkerAction::<T>::Exit),
        Shared::<T>::rest(true, queue) == queue,
{
}

} // verus!
