//! The protocol core of a fixed-size thread pool.
//!
//! Every subsystem of the pool is a sequential state machine with an exact
//! contract: the ready queue and its exit flag, the worker life cycle, the
//! one-shot result channel, the reference-counted header of an asynchronous
//! task, periodic tasks and the timer that holds them, and the start-up and
//! shutdown sequences of the pool itself. Blocking, thread creation and panic
//! capture are left to the program that drives these machines: it performs the
//! action a machine asks for and hands back what happened.

use vstd::prelude::*;

pub mod async_task;
pub mod builder;
pub mod channel;
pub mod context;
pub mod options;
pub mod outcome;
pub mod shared;
pub mod task;
pub mod threadpool;
pub mod timer;
pub mod waker;
pub mod worker;

pub use async_task::{Header, PollStart, Polled, Settled, TaskInner, TaskState};
pub use builder::{Config, ThreadName, ThreadNameView, ThreadPoolBuilder};
pub use channel::{ChannelInner, Notifier, Waiting};
pub use context::Registry;
pub use options::{BuilderCall, PoolOptions};
pub use outcome::{Failure, Outcome};
pub use shared::Shared;
pub use task::{Periodic, PeriodicTask, SyncTask, Task, TaskType};
pub use threadpool::{PoolPhase, PoolState, StartStep, ThreadPool, WorkerSpec};
pub use timer::{Timer, TimerAction, TimerExit, TimerHandle, TimerState, TimerStep};
pub use worker::{Hook, Phase, Worker, WorkerAction, WorkerStep};

verus! {

/// What registering a periodic task has left for the caller to do.
#[verifier::reject_recursive_types(F)]
pub struct Registration<F> {
    /// A timer that was made for the task: start the thread that runs it.
    pub timer: Option<Timer<F>>,
    /// The task, where the installed timer had ended before it took it:
    /// take the timer out of the context and register again.
    pub lost: Option<PeriodicTask<F>>,
}

/// Puts the synchronous task `task` at the tail of the ready queue, without
/// a channel for its result, and signals one sleeping worker. To submit after
/// shutdown is the submitter's error.
pub fn spawn_detached<S, A, F>(shared: &mut Shared<TaskType<S, A, F>>, task: S)
    requires
        !old(shared).exited(),
    ensures
        final(shared).exited() == old(shared).exited(),
        final(shared).signal() == old(shared).signal(),
        final(shared)@ == old(shared)@.push(TaskType::Sync(task)),
{
    shared.schedule(TaskType::Sync(task));
}

/// Registers with the timer of the current pool a task that runs `fun`
/// every `every` ticks from `now` on, `times` times where a limit is given.
/// A limit of zero registers nothing and touches nothing.
pub fn periodic<H, F>(
    context: &mut Registry<H, F>,
    fun: F,
    every: u64,
    times: Option<usize>,
    now: u64,
) -> (registration: Registration<F>)
    requires
        old(context).handle() is Some,
    ensures
        final(context).handle() == old(context).handle(),
        times == Some(0usize) ==> {
            &&& final(context).has_timer() == old(context).has_timer()
            &&& registration.timer is None
            &&& registration.lost is None
        },
        times != Some(0usize) ==> {
            &&& final(context).has_timer()
            &&& registration.timer is Some <==> !old(context).has_timer()
            &&& registration.timer matches Some(timer) ==> timer@.tasks.len() == 0 && timer@.sleep
                == 0
            &&& registration.lost matches Some(task) ==> task@ == (Periodic {
                fun,
                every,
                next: task::due_after(now, every),
                times,
            })
        },
{
    if let Some(0) = times {
        return Registration { timer: None, lost: None };
    }
    let task = PeriodicTask::new(fun, every, times, now);
    let (handle, timer) = context::get_timer(context);
    match handle.schedule(task) {
        Ok(()) => Registration { timer, lost: None },
        Err(task) => Registration { timer, lost: Some(task) },
    }
}

} // verus!
