//! What a worker is told to do next, and the life cycle of one worker.

use vstd::prelude::*;

verus! {

/// The answer of the ready queue to a worker that asks for work.
pub enum WorkerAction<T> {
    /// Execute the task.
    Run(T),
    /// Woken without a task to take: ask again.
    Retry,
    /// The pool is shutting down: leave the loop.
    Exit,
}

/// The four places at which a worker calls a hook.
#[derive(Clone, Copy, Debug, PartialEq, Eq, Structural)]
pub enum Hook {
    /// Once, before the worker asks for its first task.
    OnStart,
    /// Before every task.
    Before,
    /// After every task.
    After,
    /// Once, after the worker has left its loop.
    OnStop,
}

/// Where a worker stands: the step it was last told to take.
pub enum Phase<T> {
    /// Nothing done yet.
    Created,
    /// Calling the on-start hook.
    Starting,
    /// Asking the ready queue for work.
    Waiting,
    /// Calling the before hook, holding the task that follows it.
    Preparing(T),
    /// Executing a task.
    Running,
    /// Calling the after hook.
    Finishing,
    /// Calling the on-stop hook.
    Stopping,
    /// The worker has ended.
    Stopped,
}

/// What a worker does next.
pub enum WorkerStep<T> {
    /// Call this hook; it is configured.
    Call(Hook),
    /// Ask the ready queue for work and hand the answer to the next step.
    Wait,
    /// Execute the task.
    Execute(T),
    /// Return from the worker's thread.
    Done,
}

/// One worker of the pool: its hooks and its place in the life cycle
/// on-start, then wait and execute until told to exit, then on-stop.
pub struct Worker<H, T> {
    before: Option<H>,
    after: Option<H>,
    on_start: Option<H>,
    on_stop: Option<H>,
    phase: Phase<T>,
}

impl<H, T> Worker<H, T> {
    /// The hook configured for `at`, if any.
    pub closed spec fn configured(&self, at: Hook) -> Option<H> {
        match at {
            Hook::OnStart => self.on_start,
            Hook::Before => self.before,
            Hook::After => self.after,
            Hook::OnStop => self.on_stop,
        }
    }

    /// The worker's place in its life cycle.
    pub closed spec fn phase(&self) -> Phase<T> {
        self.phase
    }

    /// Whether a hook is configured for `at`.
    pub open spec fn has(&self, at: Hook) -> bool {
        self.configured(at) is Some
    }

    /// The step to take from `phase` and the phase it leads to. `answer` is
    /// what the ready queue said, read only in phase `Waiting`.
    pub open spec fn next(&self, phase: Phase<T>, answer: Option<WorkerAction<T>>) -> (
        Phase<T>,
        WorkerStep<T>,
    ) {
        match phase {
            Phase::Created => if self.has(Hook::OnStart) {
                (Phase::Starting, WorkerStep::Call(Hook::OnStart))
            } else {
                (Phase::Waiting, WorkerStep::Wait)
            },
            Phase::Starting => (Phase::Waiting, WorkerStep::Wait),
            Phase::Waiting => match answer {
                Some(WorkerAction::Run(task)) => if self.has(Hook::Before) {
                    (Phase::Preparing(task), WorkerStep::Call(Hook::Before))
                } else {
                    (Phase::Running, WorkerStep::Execute(task))
                },
                Some(WorkerAction::Exit) => if self.has(Hook::OnStop) {
                    (Phase::Stopping, WorkerStep::Call(Hook::OnStop))
                } else {
                    (Phase::Stopped, WorkerStep::Done)
                },
                _ => (Phase::Waiting, WorkerStep::Wait),
            },
            Phase::Preparing(task) => (Phase::Running, WorkerStep::Execute(task)),
            Phase::Running => if self.has(Hook::After) {
                (Phase::Finishing, WorkerStep::Call(Hook::After))
            } else {
                (Phase::Waiting, WorkerStep::Wait)
            },
            Phase::Finishing => (Phase::Waiting, WorkerStep::Wait),
            Phase::Stopping => (Phase::Stopped, WorkerStep::Done),
            Phase::Stopped => (Phase::Stopped, WorkerStep::Done),
        }
    }

    /// A worker that has done nothing yet.
    pub fn new(before: Option<H>, after: Option<H>, on_start: Option<H>, on_stop: Option<H>) -> (worker:
        Self)
        ensures
            worker.phase() == Phase::<T>::Created,
            worker.configured(Hook::Before) == before,
            worker.configured(Hook::After) == after,
            worker.configured(Hook::OnStart) == on_start,
            worker.configured(Hook::OnStop) == on_stop,
    {
        Worker { before, after, on_start, on_stop, phase: Phase::Created }
    }

    /// The hook to call at `at`, if one is configured.
    pub fn hook(&self, at: Hook) -> (hook: Option<&H>)
        ensures
            hook is Some == self.has(at),
            hook matches Some(h) ==> Some(*h) == self.configured(at),
    {
        match at {
            Hook::OnStart => self.on_start.as_ref(),
            Hook::Before => self.before.as_ref(),
            Hook::After => self.after.as_ref(),
            Hook::OnStop => self.on_stop.as_ref(),
        }
    }

    /// Whether the next call of [`Worker::run`] takes the ready queue's answer.
    pub fn is_waiting(&self) -> (waiting: bool)
        ensures
            waiting == (self.phase() is Waiting),
    {
        match self.phase {
            Phase::Waiting => true,
            _ => false,
        }
    }

    /// Advances the worker by one step, to be called again when the step has
    /// been carried out. After a `Wait` step `answer` holds what the ready queue
    /// said; after any other step it is `None`.
    ///
    /// A hook that panics ends the worker: nothing is called after it.
    pub fn run(&mut self, answer: Option<WorkerAction<T>>) -> (step: WorkerStep<T>)
        requires
            answer is Some <==> old(self).phase() is Waiting,
        ensures
            (final(self).phase(), step) == old(self).next(old(self).phase(), answer),
            forall|at: Hook| final(self).configured(at) == old(self).configured(at),
    {
        let mut phase = Phase::Stopped;
        std::mem::swap(&mut self.phase, &mut phase);
        let (next, step) = match phase {
            Phase::Created => if self.on_start.is_some() {
                (Phase::Starting, WorkerStep::Call(Hook::OnStart))
            } else {
                (Phase::Waiting, WorkerStep::Wait)
            },
            Phase::Starting => (Phase::Waiting, WorkerStep::Wait),
            Phase::Waiting => match answer {
                Some(WorkerAction::Run(task)) => if self.before.is_some() {
                    (Phase::Preparing(task), WorkerStep::Call(Hook::Before))
                } else {
                    (Phase::Running, WorkerStep::Execute(task))
                },
                Some(WorkerAction::Exit) => if self.on_stop.is_some() {
                    (Phase::Stopping, WorkerStep::Call(Hook::OnStop))
                } else {
                    (Phase::Stopped, WorkerStep::Done)
                },
                _ => (Phase::Waiting, WorkerStep::Wait),
            },
            Phase::Preparing(task) => (Phase::Running, WorkerStep::Execute(task)),
            Phase::Running => if self.after.is_some() {
                (Phase::Finishing, WorkerStep::Call(Hook::After))
            } else {
                (Phase::Waiting, WorkerStep::Wait)
            },
            Phase::Finishing => (Phase::Waiting, WorkerStep::Wait),
            Phase::Stopping => (Phase::Stopped, WorkerStep::Done),
            Phase::Stopped => (Phase::Stopped, WorkerStep::Done),
        };
        self.phase = next;
        step
    }
}

/// Every task is wrapped by the hooks: from the answer `Run(task)` a worker
/// calls the before hook, if one is configured, executes the task, calls the
/// after hook, if one is configured, and asks for work again. Nothing in
/// these steps depends on how the task ended.
pub proof fn lemma_hooks_wrap_task<H, T>(worker: Worker<H, T>, task: T)
    ensures
        ({
            let first = worker.next(Phase::Waiting, Some(WorkerAction::Run(task)));
            let executing = if worker.has(Hook::Before) {
                &&& first == (Phase::Preparing(task), WorkerStep::<T>::Call(Hook::Before))
                &&& worker.next(first.0, None) == (Phase::<T>::Running, WorkerStep::Execute(task))
            } else {
                first == (Phase::<T>::Running, WorkerStep::Execute(task))
            };
            let after = worker.next(Phase::Running, None);
            let resumed = if worker.has(Hook::After) {
                &&& after == (Phase::<T>::Finishing, WorkerStep::<T>::Call(Hook::After))
                &&& worker.next(after.0, None) == (Phase::<T>::Waiting, WorkerStep::<T>::Wait)
            } else {
                after == (Phase::<T>::Waiting, WorkerStep::<T>::Wait)
            };
            executing && resumed
        }),
{
}

/// A worker ends only when it is told to exit, and then calls the on-stop
/// hook first where one is configured; the on-start hook is called from the
/// first phase and from no other.
pub proof fn lemma_worker_life_cycle<H, T>(
    worker: Worker<H, T>,
    phase: Phase<T>,
    answer: Option<WorkerAction<T>>,
)
    ensures
        worker.next(phase, answer).1 == WorkerStep::<T>::Call(Hook::OnStart) ==> phase is Created,
        worker.next(phase, answer).1 is Done ==> phase is Stopping || phase is Stopped || (
        phase is Waiting && answer == Some(WorkerAction::<T>::Exit) && !worker.has(Hook::OnStop)),
        worker.next(phase, answer).1 == WorkerStep::<T>::Call(Hook::OnStop) ==> phase is Waiting
            && answer == Some(WorkerAction::<T>::Exit),
        worker.next(phase, answer).1 matches WorkerStep::Call(at) ==> worker.has(at),
{
}

} // verus!
