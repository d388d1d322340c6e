//! The configuration of a pool, gathered before it is started.

use crate::threadpool::{PoolState, ThreadPool};
use crate::worker::Hook;
use vstd::prelude::*;

verus! {

/// Where the names of the worker threads come from.
pub enum ThreadName<N> {
    /// Every worker bears this name.
    Fixed(String),
    /// The function is called once for each worker.
    Computed(N),
}

/// [`ThreadName`] as a plain value.
pub enum ThreadNameView<N> {
    Fixed(Seq<char>),
    Computed(N),
}

impl<N> View for ThreadName<N> {
    type V = ThreadNameView<N>;

    open spec fn view(&self) -> ThreadNameView<N> {
        match self {
            ThreadName::Fixed(name) => ThreadNameView::Fixed(name@),
            ThreadName::Computed(fun) => ThreadNameView::Computed(*fun),
        }
    }
}

/// A configuration as a plain value.
pub struct Config<H, N> {
    pub on_start: Option<H>,
    pub on_stop: Option<H>,
    pub before: Option<H>,
    pub after: Option<H>,
    pub name: ThreadNameView<N>,
    pub thread_number: usize,
    pub stack_size: Option<usize>,
}

impl<H, N> Config<H, N> {
    /// The hook configured for `at`, if any.
    pub open spec fn hook(self, at: Hook) -> Option<H> {
        match at {
            Hook::OnStart => self.on_start,
            Hook::OnStop => self.on_stop,
            Hook::Before => self.before,
            Hook::After => self.after,
        }
    }
}

/// Configures a pool before it is built. `H` is the type of the hooks, `N`
/// that of a function which names the worker threads.
pub struct ThreadPoolBuilder<H, N> {
    pub(crate) on_start: Option<H>,
    pub(crate) on_stop: Option<H>,
    pub(crate) before: Option<H>,
    pub(crate) after: Option<H>,
    pub(crate) name: ThreadName<N>,
    pub(crate) thread_number: usize,
    pub(crate) stack_size: Option<usize>,
}

/// The number of logical processors of this machine, as `num_cpus::get`
/// reports it. Nothing is claimed of the number, which differs from machine
/// to machine.
#[verifier::external_body]
fn logical_cpus() -> (cpus: usize) {
    num_cpus::get()
}

/// The number of workers of a pool on a machine with `cpus` logical
/// processors when none is asked for: two for each processor, as far as the
/// machine's word holds the product.
pub open spec fn default_threads(cpus: usize) -> usize {
    if 2 * cpus <= usize::MAX {
        (2 * cpus) as usize
    } else {
        usize::MAX
    }
}

impl<H, N> View for ThreadPoolBuilder<H, N> {
    type V = Config<H, N>;

    closed spec fn view(&self) -> Config<H, N> {
        Config {
            on_start: self.on_start,
            on_stop: self.on_stop,
            before: self.before,
            after: self.after,
            name: self.name@,
            thread_number: self.thread_number,
            stack_size: self.stack_size,
        }
    }
}

impl<H, N> ThreadPoolBuilder<H, N> {
    /// The view, field by field, for the modules that hold a builder.
    pub(crate) proof fn view_is_fields(&self)
        ensures
            self@.on_start == self.on_start,
            self@.on_stop == self.on_stop,
            self@.before == self.before,
            self@.after == self.after,
            self@.name == self.name@,
            self@.thread_number == self.thread_number,
            self@.stack_size == self.stack_size,
    {
    }
}

impl<H, N: Fn() -> String> ThreadPoolBuilder<H, N> {
    /// The configuration that [`ThreadPoolBuilder::new`] gives on a machine
    /// with `cpus` logical processors.
    pub open spec fn initial(cpus: usize) -> Config<H, N> {
        Config {
            on_start: None,
            on_stop: None,
            before: None,
            after: None,
            name: ThreadNameView::Fixed("fast_pool-worker"@),
            thread_number: default_threads(cpus),
            stack_size: None,
        }
    }

    /// Whether the function that names the workers, if there is one, may be
    /// called.
    pub open spec fn nameable(&self) -> bool {
        self@.name matches ThreadNameView::Computed(fun) ==> call_requires(fun, ())
    }

    /// The default configuration on this machine: no hooks, the platform's
    /// stack size, the fixed name `fast_pool-worker`, and two workers for each
    /// logical processor, of which a machine has at least one.
    pub fn new() -> (builder: Self)
        ensures
            exists|cpus: usize| cpus >= 1 && builder@ == Self::initial(cpus),
            builder@.thread_number >= 2,
            builder.nameable(),
    {
        let cpus: usize = logical_cpus();
        Self::with_cpus(if cpus == 0 { 1 } else { cpus })
    }

    /// The default configuration on a machine with `cpus` logical processors.
    pub fn with_cpus(cpus: usize) -> (builder: Self)
        ensures
            builder@ == Self::initial(cpus),
            builder.nameable(),
    {
        let thread_number: usize = if cpus <= usize::MAX / 2 {
            2 * cpus
        } else {
            usize::MAX
        };
        ThreadPoolBuilder {
            on_start: None,
            on_stop: None,
            before: None,
            after: None,
            name: ThreadName::Fixed("fast_pool-worker".to_owned()),
            thread_number,
            stack_size: None,
        }
    }

    /// Sets the hook that every worker calls before each task.
    pub fn before(self, fun: H) -> (builder: Self)
        ensures
            builder@ == (Config { before: Some(fun), ..self@ }),
    {
        let mut builder = self;
        builder.before = Some(fun);
        builder
    }

    /// Sets the hook that every worker calls after each task.
    pub fn after(self, fun: H) -> (builder: Self)
        ensures
            builder@ == (Config { after: Some(fun), ..self@ }),
    {
        let mut builder = self;
        builder.after = Some(fun);
        builder
    }

    /// Sets the hook that every worker calls once, before it asks for work.
    pub fn on_start(self, fun: H) -> (builder: Self)
        ensures
            builder@ == (Config { on_start: Some(fun), ..self@ }),
    {
        let mut builder = self;
        builder.on_start = Some(fun);
        builder
    }

    /// Sets the hook that every worker calls once, when it has left its loop.
    pub fn on_stop(self, fun: H) -> (builder: Self)
        ensures
            builder@ == (Config { on_stop: Some(fun), ..self@ }),
    {
        let mut builder = self;
        builder.on_stop = Some(fun);
        builder
    }

    /// Gives every worker thread the name `name`, in place of any name or
    /// naming function set before.
    pub fn thread_name(self, name: &str) -> (builder: Self)
        ensures
            builder@ == (Config { name: ThreadNameView::Fixed(name@), ..self@ }),
            builder.nameable(),
    {
        let mut builder = self;
        builder.name = ThreadName::Fixed(name.to_owned());
        builder
    }

    /// Lets `fun` name the worker threads, in place of any name or naming
    /// function set before.
    pub fn thread_name_fn(self, fun: N) -> (builder: Self)
        requires
            call_requires(fun, ()),
        ensures
            builder@ == (Config { name: ThreadNameView::Computed(fun), ..self@ }),
            builder.nameable(),
    {
        let mut builder = self;
        builder.name = ThreadName::Computed(fun);
        builder
    }

    /// Sets the stack size of the worker threads, in bytes.
    pub fn thread_stack_size(self, size: usize) -> (builder: Self)
        ensures
            builder@ == (Config { stack_size: Some(size), ..self@ }),
    {
        let mut builder = self;
        builder.stack_size = Some(size);
        builder
    }

    /// Sets the number of worker threads.
    pub fn thread_number(self, threads: usize) -> (builder: Self)
        requires
            threads > 0,
        ensures
            builder@ == (Config { thread_number: threads, ..self@ }),
    {
        let mut builder = self;
        builder.thread_number = threads;
        builder
    }

    /// The number of worker threads asked for.
    pub fn threads(&self) -> (threads: usize)
        ensures
            threads == self@.thread_number,
    {
        self.thread_number
    }

    /// The stack size asked for, if any.
    pub fn stack_size(&self) -> (size: Option<usize>)
        ensures
            size == self@.stack_size,
    {
        self.stack_size
    }

    /// The source of the names of the worker threads.
    pub fn name(&self) -> (name: &ThreadName<N>)
        ensures
            name@ == self@.name,
    {
        &self.name
    }

    /// The hook configured for `at`, if any.
    pub fn hook(&self, at: Hook) -> (hook: Option<&H>)
        ensures
            hook is Some == self@.hook(at) is Some,
            hook matches Some(hook) ==> Some(*hook) == self@.hook(at),
    {
        match at {
            Hook::OnStart => self.on_start.as_ref(),
            Hook::OnStop => self.on_stop.as_ref(),
            Hook::Before => self.before.as_ref(),
            Hook::After => self.after.as_ref(),
        }
    }

    /// Ends the configuration: the pool that comes back has no worker yet
    /// and says, step by step, which threads to start.
    pub fn build(self) -> (pool: ThreadPool<H, N>)
        requires
            self.nameable(),
        ensures
            pool.config() == self@,
            pool@ == PoolState::fresh(self@.thread_number),
    {
        ThreadPool::start(self)
    }
}

} // verus!
