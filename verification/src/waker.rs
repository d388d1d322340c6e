//! The bridge between a waker and the task it wakes: what cloning, firing
//! and dropping a waker do to the task's header and to the ready queue.

use crate::async_task::{Settled, TaskInner};
use crate::shared::Shared;
use vstd::prelude::*;

verus! {

impl<F, C> TaskInner<F, C> {
    /// A waker was cloned: the clone holds a reference of its own.
    pub fn clone_waker(&mut self)
        requires
            old(self)@.refs < usize::MAX,
        ensures
            final(self)@ == old(self)@.acquired(),
    {
        self.inc_waker();
    }

    /// A waker was fired and is consumed by it. `handle` is the task as the
    /// ready queue holds it.
    ///
    /// While the pool runs, the handle goes to the tail of the ready queue,
    /// one sleeping worker is signalled, and the waker's reference becomes that
    /// of the queue slot: `None` comes back. Once the exit flag is
    /// set nothing is enqueued: the task is aborted, the waker's reference is
    /// given up, and what is left to do comes back.
    pub fn wake<T, V, P>(&mut self, shared: &mut Shared<T>, handle: T) -> (aborted: Option<
        Settled<C, V, P>,
    >)
        requires
            old(self)@.refs > 0,
        ensures
            final(shared).exited() == old(shared).exited(),
            final(shared).signal() == old(shared).signal(),
            !old(shared).exited() ==> {
                &&& aborted is None
                &&& final(self)@ == old(self)@
                &&& final(shared)@ == old(shared)@.push(handle)
            },
            old(shared).exited() ==> {
                &&& aborted matches Some(settled)
                &&& settled.delivery == old(self)@.abort_delivery::<V, P>()
                &&& settled.free == final(self)@.dealloc()
                &&& final(self)@ == old(self)@.ended().released()
                &&& final(shared)@ == old(shared)@
            },
    {
        if shared.should_exit() {
            Some(self.clean())
        } else {
            shared.schedule(handle);
            None
        }
    }

    /// A waker was fired and lives on.
    ///
    /// As [`TaskInner::wake`], but the waker keeps its reference: the slot
    /// in the ready queue counts one more, and an abort gives none up, so
    /// that it never frees the task.
    pub fn wake_by_ref<T, V, P>(&mut self, shared: &mut Shared<T>, handle: T) -> (aborted: Option<
        Settled<C, V, P>,
    >)
        requires
            0 < old(self)@.refs < usize::MAX,
        ensures
            final(shared).exited() == old(shared).exited(),
            final(shared).signal() == old(shared).signal(),
            !old(shared).exited() ==> {
                &&& aborted is None
                &&& final(self)@ == old(self)@.acquired()
                &&& final(shared)@ == old(shared)@.push(handle)
            },
            old(shared).exited() ==> {
                &&& aborted matches Some(settled)
                &&& settled.delivery == old(self)@.abort_delivery::<V, P>()
                &&& !settled.free
                &&& final(self)@ == old(self)@.ended()
                &&& final(shared)@ == old(shared)@
            },
    {
        if shared.should_exit() {
            Some(Settled { delivery: self.abort(), free: false })
        } else {
            shared.schedule(handle);
            self.inc_waker();
            None
        }
    }

    /// A waker was dropped: its reference is given up, and the allocation is
    /// freed if the task is completed and that was the last one.
    pub fn drop_waker(&mut self) -> (free: bool)
        requires
            old(self)@.refs > 0,
        ensures
            final(self)@ == old(self)@.released(),
            free == final(self)@.dealloc(),
    {
        self.dec_waker();
        self.dealloc()
    }
}

} // verus!
