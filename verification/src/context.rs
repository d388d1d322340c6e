//! The one place of a process that knows the current pool and its timer.

use crate::timer::{Timer, TimerHandle, TimerState};
use crate::task::Periodic;
use vstd::prelude::*;

verus! {

/// The slots for the handle `H` of the current pool and for the handle of
/// its timer. The program keeps one such value for the whole process.
#[verifier::reject_recursive_types(F)]
pub struct Registry<H, F> {
    threadpool: Option<H>,
    timer: Option<TimerHandle<F>>,
}

impl<H, F> Registry<H, F> {
    /// The handle of the current pool, if one is set.
    pub closed spec fn handle(&self) -> Option<H> {
        self.threadpool
    }

    /// Whether a timer is installed.
    pub closed spec fn has_timer(&self) -> bool {
        self.timer is Some
    }

    /// A context without a pool and without a timer.
    pub fn new() -> (context: Self)
        ensures
            context.handle() is None,
            !context.has_timer(),
    {
        Registry { threadpool: None, timer: None }
    }
}

/// The handle of the current pool. To ask before a pool is set is the
/// caller's error.
pub fn get_handle<H: Clone, F>(context: &Registry<H, F>) -> (handle: H)
    requires
        context.handle() is Some,
    ensures
        cloned(context.handle()->0, handle),
{
    try_get(context).unwrap()
}

/// The handle of the current pool, if one is set.
pub fn try_get<H: Clone, F>(context: &Registry<H, F>) -> (handle: Option<H>)
    ensures
        handle is Some == context.handle() is Some,
        handle matches Some(copy) ==> cloned(context.handle()->0, copy),
{
    match &context.threadpool {
        Some(handle) => Some(handle.clone()),
        None => None,
    }
}

/// Makes `handle` the handle of the current pool.
pub fn set_handle<H, F>(context: &mut Registry<H, F>, handle: H)
    ensures
        final(context).handle() == Some(handle),
        final(context).has_timer() == old(context).has_timer(),
{
    context.threadpool = Some(handle);
}

/// Forgets the current pool.
pub fn delete_handle<H, F>(context: &mut Registry<H, F>)
    ensures
        final(context).handle() is None,
        final(context).has_timer() == old(context).has_timer(),
{
    context.threadpool = None;
}

/// The handle of the timer. Where none is installed, a timer is made and
/// its handle installed: that timer comes back too, idle and without tasks,
/// and the caller starts the thread that runs it.
pub fn get_timer<H, F>(context: &mut Registry<H, F>) -> (timer: (TimerHandle<F>, Option<Timer<F>>))
    ensures
        final(context).has_timer(),
        final(context).handle() == old(context).handle(),
        timer.1 is Some <==> !old(context).has_timer(),
        timer.1 matches Some(made) ==> made@ == (TimerState {
            tasks: Seq::<Periodic<F>>::empty(),
            sleep: 0,
        }),
{
    match &context.timer {
        Some(handle) => (handle.clone(), None),
        None => {
            let (handle, timer) = Timer::init();
            let copy = handle.clone();
            context.timer = Some(handle);
            (copy, Some(timer))
        },
    }
}

/// The handle of the timer, if one is installed.
pub fn get_timer_optional<H, F>(context: &Registry<H, F>) -> (timer: Option<TimerHandle<F>>)
    ensures
        timer is Some == context.has_timer(),
{
    match &context.timer {
        Some(handle) => Some(handle.clone()),
        None => None,
    }
}

/// Takes the timer out: the next periodic task starts a new one.
pub fn delete_timer<H, F>(context: &mut Registry<H, F>)
    ensures
        !final(context).has_timer(),
        final(context).handle() == old(context).handle(),
{
    context.timer = None;
}

} // verus!
