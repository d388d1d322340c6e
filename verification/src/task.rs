//! The units of work that a pool accepts: synchronous tasks, which run once
//! and produce a value, and periodic tasks, which the timer brings back.

use crate::outcome::{outcome_of, settle, Outcome};
use crate::shared::{after_answers, lemma_first_in_first_out, Shared};
use crate::timer::TimerHandle;
use crate::worker::WorkerAction;
use vstd::prelude::*;

verus! {

/// A unit of work that runs once on a worker and produces a value.
pub trait Task: Send + Sized + 'static {
    /// What the task produces.
    type Output: Sized + Send + 'static;

    /// Whether the task may be run. Any task may, unless its type says
    /// otherwise.
    open spec fn runnable(&self) -> bool {
        true
    }

    /// Whether `output` is a value that running the task may produce. Any
    /// value is, unless the task's type says otherwise.
    open spec fn produces(&self, output: Self::Output) -> bool {
        true
    }

    /// Runs the task.
    fn run(self) -> (output: Self::Output)
        requires
            self.runnable(),
        ensures
            self.produces(output),
    ;
}

impl<F, R> Task for F where F: FnOnce() -> R + Send + 'static, R: Sized + Send + 'static {
    type Output = R;

    open spec fn runnable(&self) -> bool {
        call_requires(*self, ())
    }

    open spec fn produces(&self, output: R) -> bool {
        call_ensures(*self, (), output)
    }

    fn run(self) -> (output: R) {
        self()
    }
}

/// A task as the ready queue holds it. `S` is a synchronous task made ready
/// to run, `A` an asynchronous task, `F` the body of a periodic task.
pub enum TaskType<S, A, F> {
    Sync(S),
    Async(A),
    Periodic(PeriodicTask<F>),
}

/// The test for an asynchronous task.
pub open spec fn is_async<S, A, F>() -> spec_fn(TaskType<S, A, F>) -> bool {
    |task: TaskType<S, A, F>| task is Async
}

/// The asynchronous tasks among `tasks`, in their order.
pub open spec fn asyncs_of<S, A, F>(tasks: Seq<TaskType<S, A, F>>) -> Seq<A> {
    tasks.filter(is_async()).map_values(|task: TaskType<S, A, F>| task->Async_0)
}

impl<S, A, F> TaskType<S, A, F> {
    /// Disposes of the tasks that were still in the ready queue when the
    /// pool shut down. Synchronous and periodic tasks are dropped: a channel
    /// of theirs never sees an outcome. The asynchronous tasks come back, in
    /// their order, to be aborted.
    pub fn discard(left: Vec<Self>) -> (aborted: Vec<A>)
        ensures
            aborted@ == asyncs_of(left@),
    {
        let mut aborted: Vec<A> = Vec::new();
        assert(left@.take(0).filter(is_async()) =~= Seq::empty()) by {
            reveal(Seq::filter);
        }
        for task in it: left.into_iter()
            invariant
                it.seq() == left@,
                aborted@ == asyncs_of(left@.take(it.index() as int)),
        {
            let ghost done = left@.take(it.index() as int);
            assert(left@.take(it.index() + 1) =~= done.push(task));
            proof {
                done.lemma_filter_push(task, is_async());
            }
            if let TaskType::Async(task) = task {
                aborted.push(task);
            }
        }
        assert(left@.take(left@.len() as int) =~= left@);
        aborted
    }
}

/// A synchronous task: its body, and the producer end `C` of the result
/// channel where the submitter has asked for one.
pub struct SyncTask<F, C> {
    fun: F,
    channel: Option<C>,
}

impl<F: Task, C> SyncTask<F, C> {
    /// The body of the task.
    pub closed spec fn body(&self) -> F {
        self.fun
    }

    /// The producer end of the task's result channel, if it has one.
    pub closed spec fn channel(&self) -> Option<C> {
        self.channel
    }

    /// A task with body `fun` that reports to `channel`.
    pub fn new(channel: Option<C>, fun: F) -> (task: Self)
        ensures
            task.body() == fun,
            task.channel() == channel,
    {
        SyncTask { fun, channel }
    }

    /// Runs the task inside `guard`, the boundary that catches a panic of the
    /// body and hands its payload back as `Err`.
    ///
    /// The body runs whether or not anybody waits for its result. The task
    /// reports exactly once where it has a channel: what comes back is that
    /// channel with the one outcome to set on it, the value or the caught
    /// panic. A detached task reports nothing. Either way the call returns: a
    /// panicking body does not reach the worker.
    pub fn run<G, P>(self, guard: G) -> (delivery: Option<(C, Outcome<F::Output, P>)>) where
        G: FnOnce(F) -> Result<F::Output, P>,

        requires
            call_requires(guard, (self.body(),)),
        ensures
            exists|caught: Result<F::Output, P>| call_ensures(guard, (self.body(),), caught),
            delivery is Some <==> self.channel() is Some,
            delivery matches Some((channel, outcome)) ==> {
                &&& Some(channel) == self.channel()
                &&& exists|caught: Result<F::Output, P>|
                    call_ensures(guard, (self.body(),), caught) && outcome == outcome_of(caught)
            },
    {
        let caught = guard(self.fun);
        match self.channel {
            Some(channel) => Some((channel, settle(caught))),
            None => None,
        }
    }
}

/// A task that runs again and again: its body, the period between two runs,
/// the instant from which the next run is due and, where the runs are
/// limited, how many are left. Instants and periods are counts of ticks of
/// one clock that never runs backwards.
pub struct PeriodicTask<F> {
    fun: F,
    every: u64,
    next: u64,
    times: Option<usize>,
}

/// [`PeriodicTask`] as a plain value.
pub struct Periodic<F> {
    pub fun: F,
    pub every: u64,
    pub next: u64,
    pub times: Option<usize>,
}

/// The instant `every` ticks after `now`, as far as the clock's range
/// reaches.
pub open spec fn due_after(now: u64, every: u64) -> u64 {
    if now + every <= u64::MAX {
        (now + every) as u64
    } else {
        u64::MAX
    }
}

impl<F> Periodic<F> {
    /// Whether a run is due at `now`: the due instant lies in the past.
    pub open spec fn can_run(self, now: u64) -> bool {
        now > self.next
    }

    /// The task after a run that ended at `now`, or `None` where that was
    /// the last run.
    pub open spec fn after_run(self, now: u64) -> Option<Self> {
        match self.times {
            Some(left) if left <= 1 => None,
            Some(left) => Some(
                Periodic { next: due_after(now, self.every), times: Some((left - 1) as usize), ..self },
            ),
            None => Some(Periodic { next: due_after(now, self.every), ..self }),
        }
    }
}

impl<F> View for PeriodicTask<F> {
    type V = Periodic<F>;

    closed spec fn view(&self) -> Periodic<F> {
        Periodic { fun: self.fun, every: self.every, next: self.next, times: self.times }
    }
}

impl<F> PeriodicTask<F> {
    /// A task registered at `now` that runs `fun` every `every` ticks,
    /// `times` times where a limit is given. The body is not called here, and
    /// a limit of zero is kept as it is: such a task is never run.
    pub fn new(fun: F, every: u64, times: Option<usize>, now: u64) -> (task: Self)
        ensures
            task@ == (Periodic { fun, every, next: due_after(now, every), times }),
    {
        PeriodicTask { fun, every, next: now.saturating_add(every), times }
    }

    /// The body of the task.
    pub fn body(&self) -> (fun: &F)
        ensures
            *fun == self@.fun,
    {
        &self.fun
    }

    /// The period between two runs, in ticks.
    pub fn every(&self) -> (every: u64)
        ensures
            every == self@.every,
    {
        self.every
    }

    /// The instant from which the next run is due.
    pub fn next(&self) -> (next: u64)
        ensures
            next == self@.next,
    {
        self.next
    }

    /// The number of runs left, where the runs are limited.
    pub fn times(&self) -> (times: Option<usize>)
        ensures
            times == self@.times,
    {
        self.times
    }

    /// Whether a run is due at `now`.
    pub fn can_run(&self, now: u64) -> (due: bool)
        ensures
            due == self@.can_run(now),
    {
        now > self.next
    }

    /// Runs the body once and reads the clock when it has returned. Where
    /// runs are left, or were never limited, the task comes back with one run
    /// less to go and due a period after that reading, to be registered with
    /// the timer again; after its last run there is no task any more. A task
    /// whose limit is zero has no run left: its body is not called, and there
    /// is no task any more.
    pub fn run<K: FnOnce() -> u64>(self, clock: K) -> (again: Option<Self>) where F: Fn()
        requires
            call_requires(self@.fun, ()),
            call_requires(clock, ()),
        ensures
            self@.times == Some(0usize) ==> again is None,
            self@.times != Some(0usize) ==> call_ensures(self@.fun, (), ()) && exists|now: u64|
                call_ensures(clock, (), now) && Self::same(again, self@.after_run(now)),
    {
        if let Some(0) = self.times {
            return None;
        }
        (self.fun)();
        let now: u64 = clock();
        self.reschedule_at(now)
    }

    /// Whether `task`, if any, is the plain value `plain`.
    pub open spec fn same(task: Option<Self>, plain: Option<Periodic<F>>) -> bool {
        match task {
            Some(task) => plain == Some(task@),
            None => plain is None,
        }
    }

    /// The task after a run that ended at `now`: with one run less to go and
    /// due a period after `now`, or `None` where that was its last run.
    pub fn reschedule_at(self, now: u64) -> (again: Option<Self>)
        ensures
            Self::same(again, self@.after_run(now)),
    {
        let mut task = self;
        match task.times {
            Some(left) => {
                if left <= 1 {
                    return None;
                }
                task.times = Some(left - 1);
            },
            None => {},
        }
        task.next = now.saturating_add(task.every);
        Some(task)
    }

    /// Registers the task with the timer again, as [`TimerHandle::schedule`]
    /// does. Where the timer has ended the task comes back.
    pub fn reschedule(self, timer: &TimerHandle<F>) -> (sent: Result<(), Self>)
        ensures
            TimerHandle::<F>::sends(self, sent),
            sent matches Err(back) ==> back == self,
    {
        timer.schedule(self)
    }

    /// Hands a due task to the ready queue, unless the pool has exited: then
    /// the task is dropped. Says whether the task was enqueued.
    pub fn schedule<S, A>(self, shared: &mut Shared<TaskType<S, A, F>>) -> (enqueued: bool)
        ensures
            enqueued == !old(shared).exited(),
            final(shared).exited() == old(shared).exited(),
            final(shared).signal() == old(shared).signal(),
            final(shared)@ == if enqueued {
                old(shared)@.push(TaskType::Periodic(self))
            } else {
                old(shared)@
            },
    {
        if shared.should_exit() {
            false
        } else {
            shared.schedule(TaskType::Periodic(self));
            true
        }
    }
}

/// The task after the runs that ended at the instants `ends`, one after the
/// other, or `None` where it has run for the last time before they were
/// through.
pub open spec fn after_runs<F>(task: Periodic<F>, ends: Seq<u64>) -> Option<Periodic<F>>
    decreases ends.len(),
{
    if ends.len() == 0 {
        Some(task)
    } else {
        match after_runs(task, ends.drop_last()) {
            Some(task) => task.after_run(ends.last()),
            None => None,
        }
    }
}

/// A task limited to `left` runs is there for each of its first `left`
/// runs, with the count of the remaining ones going down by one each time,
/// and is gone after the last of them: it never runs more than `left` times.
/// A task whose limit is zero is gone with the first attempt to run it.
pub proof fn lemma_limited_runs<F>(task: Periodic<F>, ends: Seq<u64>)
    requires
        task.times is Some,
    ensures
        ends.len() < task.times->0 ==> (after_runs(task, ends) matches Some(later)
            && later.times == Some((task.times->0 - ends.len()) as usize) && later.fun == task.fun
            && later.every == task.every),
        ends.len() >= task.times->0 && ends.len() > 0 ==> after_runs(task, ends) is None,
    decreases ends.len(),
{
    if ends.len() > 0 {
        lemma_limited_runs(task, ends.drop_last());
    }
}

/// A task without a limit is there after any number of runs, unchanged but
/// for its due instant.
pub proof fn lemma_unlimited_runs<F>(task: Periodic<F>, ends: Seq<u64>)
    requires
        task.times is None,
    ensures
        after_runs(task, ends) matches Some(later) && later.times is None && later.fun == task.fun
            && later.every == task.every,
    decreases ends.len(),
{
    if ends.len() > 0 {
        lemma_unlimited_runs(task, ends.drop_last());
    }
}

/// The due instant of a task that runs again lies a full period after the
/// end of its run: it is not due at that instant, and, where the period is
/// not zero and the clock's range is not used up, it is due strictly later
/// than before the run, which was due when it began.
pub proof fn lemma_next_run_is_later<F>(task: Periodic<F>, began: u64, ended: u64)
    requires
        task.can_run(began),
        began <= ended,
        task.after_run(ended) is Some,
    ensures
        !task.after_run(ended)->0.can_run(ended),
        task.every > 0 && ended + task.every <= u64::MAX ==> task.after_run(ended)->0.next
            > task.next,
        task.after_run(ended)->0.next >= task.next,
{
}

/// What is handed back for an abort when the queue is drained are the
/// asynchronous tasks of the queue and nothing else, each of them once and
/// in the order of the queue: no synchronous and no periodic task is among
/// them.
pub proof fn lemma_discard_keeps_async_only<S, A, F>(left: Seq<TaskType<S, A, F>>, at: int)
    requires
        0 <= at < asyncs_of(left).len(),
    ensures
        left.contains(TaskType::Async(asyncs_of(left)[at])),
        asyncs_of(left).len() <= left.len(),
        left.len() > 0 && !(left.last() is Async) ==> asyncs_of(left) == asyncs_of(left.drop_last()),
        left.len() > 0 && left.last() is Async ==> asyncs_of(left) == asyncs_of(
            left.drop_last(),
        ).push(left.last()->Async_0),
{
    let kept = left.filter(is_async());
    left.lemma_filter_len(is_async());
    left.lemma_filter_pred(is_async(), at);
    left.lemma_filter_contains_rev(is_async(), kept[at]);
    if left.len() > 0 {
        assert(left.drop_last().push(left.last()) =~= left);
        left.drop_last().lemma_filter_push(left.last(), is_async());
    }
}

/// The fate of a synchronous task at place `at` of the ready queue, where
/// the pool shuts down after `served` answers. If its turn came first, it
/// was handed to a worker, as the answer after those for the tasks before it,
/// and [`SyncTask::run`] reports its one outcome. If the shutdown came first,
/// no answer ever hands it out: it is still in the queue when that is
/// drained, and is dropped there without an outcome.
pub proof fn lemma_sync_task_fate<S, A, F>(queue: Seq<TaskType<S, A, F>>, at: int, served: nat)
    requires
        0 <= at < queue.len(),
        served <= queue.len(),
        queue[at] is Sync,
    ensures
        served > at ==> Shared::<TaskType<S, A, F>>::answer(
            false,
            after_answers(queue, at as nat),
            None,
        ) == Some(WorkerAction::Run(queue[at])),
        served <= at ==> {
            let left = after_answers(queue, served);
            &&& left == queue.skip(served as int)
            &&& left[at - served] == queue[at]
            &&& Shared::<TaskType<S, A, F>>::answer(true, left, None) == Some(
                WorkerAction::<TaskType<S, A, F>>::Exit,
            )
            &&& Shared::<TaskType<S, A, F>>::rest(true, left) == left
            &&& forall|k: int|
                0 <= k < asyncs_of(left).len() ==> TaskType::<S, A, F>::Async(
                    #[trigger] asyncs_of(left)[k],
                ) != queue[at]
        },
{
    lemma_first_in_first_out(queue, at as nat);
    if served <= at {
        lemma_first_in_first_out(queue, served);
    }
}

} // verus!
