//! The life of a pool: starting its workers one by one, and shutting down.

use crate::builder::{Config, ThreadName, ThreadNameView, ThreadPoolBuilder};
use crate::shared::Shared;
use crate::worker::{Hook, Phase, Worker};
use vstd::prelude::*;

verus! {

/// Where a pool stands between its configuration and its end.
#[derive(Clone, Copy, Debug, PartialEq, Eq, Structural)]
pub enum PoolPhase {
    /// Workers are still to be started; none is being started right now.
    Starting,
    /// A worker thread was asked for and the outcome is not yet known.
    Spawning,
    /// Every worker has been started.
    Running,
    /// A worker thread could not be started: the pool counts as not started.
    Failed,
    /// The exit flag is set; the workers are being joined.
    Closing,
    /// Every worker is joined and the ready queue is drained.
    Stopped,
}

/// A pool as a plain value.
pub struct PoolState {
    /// The number of workers that the configuration asks for.
    pub threads: nat,
    /// The number of workers started and not yet joined.
    pub alive: nat,
    pub phase: PoolPhase,
}

impl PoolState {
    /// A pool that has started nothing yet.
    pub open spec fn fresh(threads: usize) -> PoolState {
        PoolState { threads: threads as nat, alive: 0, phase: PoolPhase::Starting }
    }

    /// Whether a step of the start-up may be taken, `spawned` being the
    /// outcome of the thread asked for before.
    pub open spec fn can_step(self, spawned: Option<bool>) -> bool {
        &&& self.alive <= self.threads
        &&& match self.phase {
            PoolPhase::Starting => spawned is None,
            PoolPhase::Spawning => spawned is Some && self.alive < self.threads,
            _ => false,
        }
    }

    /// The pool after a step of the start-up.
    pub open spec fn after_step(self, spawned: Option<bool>) -> PoolState {
        if spawned == Some(false) {
            PoolState { phase: PoolPhase::Failed, ..self }
        } else {
            let alive = if spawned == Some(true) {
                self.alive + 1
            } else {
                self.alive
            };
            PoolState {
                alive: alive as nat,
                phase: if alive < self.threads {
                    PoolPhase::Spawning
                } else {
                    PoolPhase::Running
                },
                ..self
            }
        }
    }

    /// Whether the pool may be shut down: it runs, or its start has failed.
    pub open spec fn can_shutdown(self) -> bool {
        self.phase == PoolPhase::Running || self.phase == PoolPhase::Failed
    }

    /// The pool after `shutdown`.
    pub open spec fn after_shutdown(self) -> PoolState {
        PoolState { phase: PoolPhase::Closing, ..self }
    }

    /// Whether a worker is left to join.
    pub open spec fn can_join(self) -> bool {
        self.phase == PoolPhase::Closing && self.alive > 0
    }

    /// The pool after one worker was joined.
    pub open spec fn after_join(self) -> PoolState {
        PoolState { alive: (self.alive - 1) as nat, ..self }
    }

    /// Whether the ready queue may be drained: every worker is joined.
    pub open spec fn can_clean(self) -> bool {
        self.phase == PoolPhase::Closing && self.alive == 0
    }

    /// The pool after `clean`.
    pub open spec fn after_clean(self) -> PoolState {
        PoolState { phase: PoolPhase::Stopped, ..self }
    }
}

/// What the thread of one worker is started with.
pub struct WorkerSpec<H, T> {
    /// The name of the thread.
    pub name: String,
    /// The stack size of the thread in bytes; `None` for the platform's.
    pub stack_size: Option<usize>,
    /// The worker that the thread runs.
    pub worker: Worker<H, T>,
}

/// What the start-up of a pool asks for next.
pub enum StartStep<H, T> {
    /// Start a thread for this worker and report whether that succeeded.
    Spawn(WorkerSpec<H, T>),
    /// Every worker runs: the pool is started.
    Started,
    /// The last thread could not be started: shut the pool down, which joins
    /// the workers started so far, and report the failure.
    Abort,
}

/// A pool of workers: the configuration it was built from, the number of
/// workers alive and the phase it is in.
pub struct ThreadPool<H, N> {
    config: ThreadPoolBuilder<H, N>,
    alive: usize,
    phase: PoolPhase,
}

impl<H, N> View for ThreadPool<H, N> {
    type V = PoolState;

    closed spec fn view(&self) -> PoolState {
        PoolState {
            threads: self.config.thread_number as nat,
            alive: self.alive as nat,
            phase: self.phase,
        }
    }
}

/// A hook for one more worker: a clone of the configured one.
fn share<H: Clone>(hook: &Option<H>) -> (shared: Option<H>)
    ensures
        shared is Some == hook is Some,
        shared matches Some(copy) ==> cloned(hook->0, copy),
{
    match hook {
        Some(hook) => Some(hook.clone()),
        None => None,
    }
}

impl<H, N: Fn() -> String> ThreadPool<H, N> {
    /// The configuration that the pool was built from.
    pub closed spec fn config(&self) -> Config<H, N> {
        self.config@
    }

    /// Whether `spec` is what a worker of a pool configured by `config` is
    /// started with: the configured stack size, a name from the configured
    /// source, and a fresh worker with a clone of each configured hook.
    pub open spec fn equips<T>(config: Config<H, N>, spec: WorkerSpec<H, T>) -> bool where
        H: Clone,
     {
        &&& spec.stack_size == config.stack_size
        &&& match config.name {
            ThreadNameView::Fixed(name) => spec.name@ == name,
            ThreadNameView::Computed(fun) => call_ensures(fun, (), spec.name),
        }
        &&& spec.worker.phase() == Phase::<T>::Created
        &&& Self::hands_on(config.on_start, spec.worker.configured(Hook::OnStart))
        &&& Self::hands_on(config.before, spec.worker.configured(Hook::Before))
        &&& Self::hands_on(config.after, spec.worker.configured(Hook::After))
        &&& Self::hands_on(config.on_stop, spec.worker.configured(Hook::OnStop))
    }

    /// Whether `given` is a clone of the hook `configured`, or both are absent.
    pub open spec fn hands_on(configured: Option<H>, given: Option<H>) -> bool where H: Clone {
        match configured {
            Some(hook) => given matches Some(copy) && cloned(hook, copy),
            None => given is None,
        }
    }

    /// A pool with the default configuration of this machine.
    pub fn default() -> (pool: Self)
        ensures
            exists|cpus: usize| cpus >= 1 && pool.config() == ThreadPoolBuilder::<H, N>::initial(cpus),
            pool@.phase == PoolPhase::Starting,
            pool@.alive == 0,
            pool@.threads >= 2,
    {
        Self::start(ThreadPoolBuilder::new())
    }

    /// Takes a configuration over. Nothing is started yet: [`ThreadPool::step`]
    /// says which threads to start.
    pub fn start(builder: ThreadPoolBuilder<H, N>) -> (pool: Self)
        requires
            builder.nameable(),
        ensures
            pool.config() == builder@,
            pool@ == PoolState::fresh(builder@.thread_number),
    {
        proof {
            builder.view_is_fields();
        }
        ThreadPool { config: builder, alive: 0, phase: PoolPhase::Starting }
    }

    /// The next step of the start-up. After a `Spawn` step, `spawned` says
    /// whether the thread was started; on the first call it is `None`.
    ///
    /// A pool configured for `n` workers asks for `n` threads, one after the
    /// other, and is `Started` when the last one runs. The first thread that
    /// cannot be started ends the start-up with `Abort`.
    pub fn step<T>(&mut self, spawned: Option<bool>) -> (next: StartStep<H, T>) where H: Clone
        requires
            old(self)@.can_step(spawned),
            old(self).nameable(),
        ensures
            final(self).config() == old(self).config(),
            final(self)@ == old(self)@.after_step(spawned),
            match final(self)@.phase {
                PoolPhase::Failed => next is Abort,
                PoolPhase::Running => next is Started,
                _ => next matches StartStep::Spawn(spec) && Self::equips(old(self).config(), spec),
            },
    {
        proof {
            self.config.view_is_fields();
        }
        match spawned {
            Some(false) => {
                self.phase = PoolPhase::Failed;
                return StartStep::Abort;
            },
            Some(true) => {
                self.alive = self.alive + 1;
            },
            None => {},
        }
        if self.alive < self.config.thread_number {
            self.phase = PoolPhase::Spawning;
            let name = match &self.config.name {
                ThreadName::Fixed(name) => name.clone(),
                ThreadName::Computed(fun) => fun(),
            };
            let worker = Worker::new(
                share(&self.config.before),
                share(&self.config.after),
                share(&self.config.on_start),
                share(&self.config.on_stop),
            );
            StartStep::Spawn(WorkerSpec { name, stack_size: self.config.stack_size, worker })
        } else {
            self.phase = PoolPhase::Running;
            StartStep::Started
        }
    }

    /// Whether the function that names the workers, if there is one, may be
    /// called.
    pub open spec fn nameable(&self) -> bool {
        self.config().name matches ThreadNameView::Computed(fun) ==> call_requires(fun, ())
    }

    /// The phase that the pool is in.
    pub fn phase(&self) -> (phase: PoolPhase)
        ensures
            phase == self@.phase,
    {
        self.phase
    }

    /// The number of workers started and not yet joined.
    pub fn alive(&self) -> (alive: usize)
        ensures
            alive == self@.alive,
    {
        self.alive
    }

    /// The number of workers that the configuration asks for.
    pub fn threads(&self) -> (threads: usize)
        ensures
            threads == self@.threads,
    {
        self.config.thread_number
    }

    /// Begins the shutdown: sets the exit flag of the ready queue, wakes
    /// every sleeping worker, and says how many workers there are to join. The
    /// caller joins them and then calls [`ThreadPool::clean`].
    pub fn shutdown<T>(&mut self, shared: &mut Shared<T>) -> (workers: usize)
        requires
            old(self)@.can_shutdown(),
        ensures
            final(self).config() == old(self).config(),
            final(self)@ == old(self)@.after_shutdown(),
            workers == old(self)@.alive,
            final(shared).exited(),
            final(shared).signal() == old(shared).signal(),
            final(shared)@ == old(shared)@,
    {
        shared.close();
        self.phase = PoolPhase::Closing;
        self.alive
    }

    /// Records that one worker was joined.
    pub fn joined(&mut self)
        requires
            old(self)@.can_join(),
        ensures
            final(self).config() == old(self).config(),
            final(self)@ == old(self)@.after_join(),
    {
        self.alive = self.alive - 1;
    }

    /// Ends the shutdown once every worker is joined: drains the ready queue
    /// and hands out the tasks that never ran, head first, for disposal.
    pub fn clean<T>(&mut self, shared: &mut Shared<T>) -> (left: Vec<T>)
        requires
            old(self)@.can_clean(),
        ensures
            final(self).config() == old(self).config(),
            final(self)@ == old(self)@.after_clean(),
            final(self)@.phase == PoolPhase::Stopped,
            final(self)@.alive == 0,
            final(shared)@.len() == 0,
            final(shared).exited() == old(shared).exited(),
            final(shared).signal() == old(shared).signal(),
            left@ == old(shared)@,
    {
        self.phase = PoolPhase::Stopped;
        shared.clean()
    }
}

impl PoolState {
    /// The pool after `joins` workers were joined.
    pub open spec fn after_joins(self, joins: nat) -> PoolState
        decreases joins,
    {
        if joins == 0 {
            self
        } else {
            self.after_joins((joins - 1) as nat).after_join()
        }
    }

    /// The pool after `spawned` threads were started with success, the first
    /// step included.
    pub open spec fn after_spawns(self, spawned: nat) -> PoolState
        decreases spawned,
    {
        if spawned == 0 {
            self.after_step(None)
        } else {
            self.after_spawns((spawned - 1) as nat).after_step(Some(true))
        }
    }
}

/// A pool configured for `threads` workers asks for exactly that many
/// threads: as long as fewer have been started the next step may be taken and
/// asks for one more, and with the last one the pool runs.
pub proof fn lemma_start_spawns_all(threads: usize, spawned: nat)
    requires
        spawned <= threads,
    ensures
        PoolState::fresh(threads).after_spawns(spawned).alive == spawned,
        PoolState::fresh(threads).after_spawns(spawned).threads == threads,
        spawned < threads ==> PoolState::fresh(threads).after_spawns(spawned).phase
            == PoolPhase::Spawning && PoolState::fresh(threads).after_spawns(spawned).can_step(
            Some(true),
        ) && PoolState::fresh(threads).after_spawns(spawned).can_step(Some(false)),
        spawned == threads ==> PoolState::fresh(threads).after_spawns(spawned).phase
            == PoolPhase::Running,
    decreases spawned,
{
    if spawned > 0 {
        lemma_start_spawns_all(threads, (spawned - 1) as nat);
    }
}

/// A shutdown always runs to its end, whether or not the pool was ever
/// given work: a pool that runs, or whose start has failed, may be shut down;
/// each of its workers may then be joined in turn; and with the last one
/// joined the queue may be drained, after which the pool is stopped with no
/// worker alive. A stopped pool cannot be shut down again.
pub proof fn lemma_shutdown_completes(pool: PoolState, joins: nat)
    requires
        pool.can_shutdown(),
        joins <= pool.alive,
    ensures
        pool.after_shutdown().after_joins(joins).phase == PoolPhase::Closing,
        pool.after_shutdown().after_joins(joins).alive == pool.alive - joins,
        pool.after_shutdown().after_joins(joins).threads == pool.threads,
        joins < pool.alive ==> pool.after_shutdown().after_joins(joins).can_join(),
        joins == pool.alive ==> pool.after_shutdown().after_joins(joins).can_clean(),
        joins == pool.alive ==> pool.after_shutdown().after_joins(joins).after_clean() == (
        PoolState { alive: 0, phase: PoolPhase::Stopped, ..pool }),
        !pool.after_shutdown().after_joins(joins).after_clean().can_shutdown(),
    decreases joins,
{
    if joins > 0 {
        lemma_shutdown_completes(pool, (joins - 1) as nat);
    }
}

} // verus!
