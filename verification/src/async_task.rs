//! The header of an asynchronous task: its state, its result channel and the
//! count of references that keep it alive.

use crate::outcome::{Failure, Outcome};
use vstd::prelude::*;

verus! {

/// The state of an asynchronous task.
pub enum TaskState<F> {
    /// The state machine is live and may be polled.
    Incomplete(F),
    /// A worker holds the state machine and polls it.
    Polling,
    /// The task has finished, panicked or was aborted; the state machine is
    /// gone.
    Completed,
}

/// What one poll of a state machine gave, panics caught.
pub enum Polled<F, V, P> {
    /// The state machine panicked with this payload.
    Panicked(P),
    /// The state machine finished with this value.
    Ready(V),
    /// The state machine suspended itself, and comes back.
    Pending(F),
}

/// What is left to do after an operation on a task.
pub struct Settled<C, V, P> {
    /// The producer end of the result channel and the outcome to set on it.
    pub delivery: Option<(C, Outcome<V, P>)>,
    /// Whether the task's allocation is to be freed now.
    pub free: bool,
}

/// What a worker does with a task that it has taken from the ready queue.
pub enum PollStart<F> {
    /// Poll this state machine once, away from the header, and report with
    /// [`TaskInner::end_poll`].
    Poll(F),
    /// Another worker polls the task right now: put the task back into the
    /// ready queue, with the reference of its slot.
    Busy,
    /// The task has completed already: there is nothing to poll, and the
    /// reference of the queue slot is given up.
    Skip {
        /// Whether the task's allocation is to be freed now.
        free: bool,
    },
}

/// The header of an asynchronous task. `F` is the state machine, `C` the
/// producer end of the result channel.
///
/// The reference count covers the outstanding wakers and the slot in the
/// ready queue, which passes to the worker that polls the task. The
/// allocation is freed when, and only when, the task is completed and the
/// count is zero.
pub struct TaskInner<F, C> {
    state: TaskState<F>,
    channel: Option<C>,
    refs: usize,
}

/// [`TaskInner`] as a plain value.
pub struct Header<F, C> {
    pub state: TaskState<F>,
    pub channel: Option<C>,
    pub refs: nat,
}

impl<F, C> Header<F, C> {
    /// Whether the allocation of a task in this state is to be freed.
    pub open spec fn dealloc(self) -> bool {
        self.refs == 0 && self.state is Completed
    }

    /// The header with one reference more.
    pub open spec fn acquired(self) -> Self {
        Header { refs: self.refs + 1, ..self }
    }

    /// The header with one reference less.
    pub open spec fn released(self) -> Self {
        Header { refs: (self.refs - 1) as nat, ..self }
    }

    /// The header of the task once it has ended: completed, and without its
    /// channel.
    pub open spec fn ended(self) -> Self {
        Header { state: TaskState::Completed, channel: None, ..self }
    }

    /// The header after a worker has asked to poll the task.
    pub open spec fn after_begin(self) -> Self {
        match self.state {
            TaskState::Incomplete(_) => Header { state: TaskState::Polling, ..self },
            TaskState::Polling => self,
            TaskState::Completed => self.released(),
        }
    }

    /// The header after a poll that gave `polled`: the worker's reference is
    /// given up, and a task that was not aborted meanwhile is completed, or
    /// has its state machine back.
    pub open spec fn after_poll<V, P>(self, polled: Polled<F, V, P>) -> Self {
        match (self.state, polled) {
            (TaskState::Completed, _) => self.released(),
            (_, Polled::Pending(machine)) => Header {
                state: TaskState::Incomplete(machine),
                ..self.released()
            },
            _ => self.ended().released(),
        }
    }

    /// The outcome that a poll which gave `polled` sets on the channel, if
    /// any.
    pub open spec fn poll_delivery<V, P>(self, polled: Polled<F, V, P>) -> Option<
        (C, Outcome<V, P>),
    > {
        match (self.state, self.channel, polled) {
            (TaskState::Completed, _, _) => None,
            (_, Some(channel), Polled::Ready(value)) => Some((channel, Ok(value))),
            (_, Some(channel), Polled::Panicked(payload)) => Some(
                (channel, Err(Failure::Panic(payload))),
            ),
            _ => None,
        }
    }

    /// The outcome that an abort sets on the channel, if there is one: the
    /// pool has shut down.
    pub open spec fn abort_delivery<V, P>(self) -> Option<(C, Outcome<V, P>)> {
        match self.channel {
            Some(channel) => Some((channel, Err(Failure::Shutdown))),
            None => None,
        }
    }
}

impl<F, C> View for TaskInner<F, C> {
    type V = Header<F, C>;

    closed spec fn view(&self) -> Header<F, C> {
        Header { state: self.state, channel: self.channel, refs: self.refs as nat }
    }
}

impl<F, C> TaskInner<F, C> {
    /// A task that was never polled. Its one reference is that of the slot
    /// in the ready queue which the task is about to take.
    pub fn new(machine: F, channel: Option<C>) -> (task: Self)
        ensures
            task@ == (Header { state: TaskState::Incomplete(machine), channel, refs: 1 }),
    {
        TaskInner { state: TaskState::Incomplete(machine), channel, refs: 1 }
    }

    /// The number of references.
    pub fn refs(&self) -> (refs: usize)
        ensures
            refs == self@.refs,
    {
        self.refs
    }

    /// Whether the task has ended.
    pub fn is_completed(&self) -> (completed: bool)
        ensures
            completed == (self@.state is Completed),
    {
        match self.state {
            TaskState::Completed => true,
            _ => false,
        }
    }

    /// Whether a worker polls the task right now.
    pub fn is_polling(&self) -> (polling: bool)
        ensures
            polling == (self@.state is Polling),
    {
        match self.state {
            TaskState::Polling => true,
            _ => false,
        }
    }

    /// Counts one reference more.
    pub fn inc_waker(&mut self)
        requires
            old(self)@.refs < usize::MAX,
        ensures
            final(self)@ == old(self)@.acquired(),
    {
        self.refs = self.refs + 1;
    }

    /// Counts one reference less.
    pub fn dec_waker(&mut self)
        requires
            old(self)@.refs > 0,
        ensures
            final(self)@ == old(self)@.released(),
    {
        self.refs = self.refs - 1;
    }

    /// Whether the allocation is to be freed: the task is completed and
    /// nothing refers to it. Asked whenever a reference has gone or the task
    /// has ended.
    pub fn dealloc(&self) -> (free: bool)
        ensures
            free == self@.dealloc(),
    {
        self.refs == 0 && self.is_completed()
    }

    /// Begins a poll on the worker that took the task from the ready queue.
    ///
    /// An incomplete task hands its state machine out and counts as being
    /// polled until [`TaskInner::end_poll`]: in between no second poll can
    /// begin, so the task is never polled by two workers at once. The worker
    /// keeps the reference of the queue slot while it polls.
    pub fn begin_poll(&mut self) -> (start: PollStart<F>)
        requires
            old(self)@.refs > 0,
        ensures
            final(self)@ == old(self)@.after_begin(),
            match old(self)@.state {
                TaskState::Incomplete(machine) => start == PollStart::Poll(machine),
                TaskState::Polling => start is Busy,
                TaskState::Completed => start == (PollStart::<F>::Skip {
                    free: final(self)@.dealloc(),
                }),
            },
    {
        let mut state = TaskState::Polling;
        std::mem::swap(&mut self.state, &mut state);
        match state {
            TaskState::Incomplete(machine) => PollStart::Poll(machine),
            TaskState::Polling => PollStart::Busy,
            TaskState::Completed => {
                self.state = TaskState::Completed;
                self.dec_waker();
                PollStart::Skip { free: self.dealloc() }
            },
        }
    }

    /// Ends a poll that gave `polled`, and gives up the worker's reference.
    ///
    /// A value or a caught panic completes the task: the channel, if one is
    /// attached, leaves the header together with the one outcome to set on
    /// it. A suspended task takes its state machine back: the waker that the
    /// state machine has cloned owns the task now, which is not put back into
    /// the ready queue. A task that was aborted during the poll stays
    /// completed and reports nothing more. The allocation is freed if the task
    /// is completed and nothing refers to it any longer.
    pub fn end_poll<V, P>(&mut self, polled: Polled<F, V, P>) -> (settled: Settled<C, V, P>)
        requires
            old(self)@.refs > 0,
        ensures
            final(self)@ == old(self)@.after_poll(polled),
            settled.delivery == old(self)@.poll_delivery(polled),
            settled.free == final(self)@.dealloc(),
    {
        self.dec_waker();
        if self.is_completed() {
            return Settled { delivery: None, free: self.dealloc() };
        }
        let outcome = match polled {
            Polled::Pending(machine) => {
                self.state = TaskState::Incomplete(machine);
                return Settled { delivery: None, free: false };
            },
            Polled::Ready(value) => Ok(value),
            Polled::Panicked(payload) => Err(Failure::Panic(payload)),
        };
        let delivery = match self.channel.take() {
            Some(channel) => Some((channel, outcome)),
            None => None,
        };
        self.state = TaskState::Completed;
        Settled { delivery, free: self.dealloc() }
    }

    /// Aborts the task: the state machine is dropped where the header holds
    /// it, and the channel, if one is attached, leaves the header with the
    /// outcome that the pool has shut down. The references stay as they are.
    pub fn abort<V, P>(&mut self) -> (delivery: Option<(C, Outcome<V, P>)>)
        ensures
            final(self)@ == old(self)@.ended(),
            delivery == old(self)@.abort_delivery::<V, P>(),
    {
        self.state = TaskState::Completed;
        match self.channel.take() {
            Some(channel) => Some((channel, Err(Failure::Shutdown))),
            None => None,
        }
    }

    /// Aborts the task and gives up the reference through which it was
    /// reached: that of a slot in the ready queue, or of a waker that is
    /// consumed. The allocation is freed if that was the last reference.
    pub fn clean<V, P>(&mut self) -> (settled: Settled<C, V, P>)
        requires
            old(self)@.refs > 0,
        ensures
            final(self)@ == old(self)@.ended().released(),
            settled.delivery == old(self)@.abort_delivery::<V, P>(),
            settled.free == final(self)@.dealloc(),
    {
        let delivery = self.abort();
        self.dec_waker();
        Settled { delivery, free: self.dealloc() }
    }
}

/// An operation on the header of a task.
pub enum Operation<F, V, P> {
    /// A waker was cloned.
    Acquire,
    /// A reference was given up.
    Release,
    /// A worker asked to poll the task.
    Begin,
    /// A poll ended with this result.
    End(Polled<F, V, P>),
    /// The task was aborted.
    Abort,
}

impl<F, C> Header<F, C> {
    /// The header after `operation`.
    pub open spec fn apply<V, P>(self, operation: Operation<F, V, P>) -> Self {
        match operation {
            Operation::Acquire => self.acquired(),
            Operation::Release => self.released(),
            Operation::Begin => self.after_begin(),
            Operation::End(polled) => self.after_poll(polled),
            Operation::Abort => self.ended(),
        }
    }

    /// What `operation` sets on the channel, if anything.
    pub open spec fn delivers<V, P>(self, operation: Operation<F, V, P>) -> Option<
        (C, Outcome<V, P>),
    > {
        match operation {
            Operation::End(polled) => self.poll_delivery(polled),
            Operation::Abort => self.abort_delivery(),
            _ => None,
        }
    }

    /// Whether `operation` hands the state machine out to be polled.
    pub open spec fn starts_poll<V, P>(self, operation: Operation<F, V, P>) -> bool {
        operation is Begin && self.state is Incomplete
    }

    /// The header after the operations `history`, one after the other.
    pub open spec fn after<V, P>(self, history: Seq<Operation<F, V, P>>) -> Self
        decreases history.len(),
    {
        if history.len() == 0 {
            self
        } else {
            self.after(history.drop_last()).apply(history.last())
        }
    }

    /// The number of outcomes that the operations `history` set on the
    /// channel.
    pub open spec fn deliveries<V, P>(self, history: Seq<Operation<F, V, P>>) -> nat
        decreases history.len(),
    {
        if history.len() == 0 {
            0
        } else {
            let before = self.deliveries(history.drop_last());
            if self.after(history.drop_last()).delivers(history.last()) is Some {
                before + 1
            } else {
                before
            }
        }
    }

    /// The number of polls that the operations `history` have begun and not
    /// ended.
    pub open spec fn polls_open<V, P>(self, history: Seq<Operation<F, V, P>>) -> int
        decreases history.len(),
    {
        if history.len() == 0 {
            0
        } else {
            let before = self.polls_open(history.drop_last());
            let header = self.after(history.drop_last());
            if header.starts_poll(history.last()) {
                before + 1
            } else if history.last() is End && before > 0 {
                before - 1
            } else {
                before
            }
        }
    }
}

/// Whatever is done to a task, its channel receives at most one outcome:
/// exactly one once the task has ended, if a channel was attached, and none
/// as long as the task has not ended or if it never had a channel.
pub proof fn lemma_one_outcome<F, C, V, P>(header: Header<F, C>, history: Seq<Operation<F, V, P>>)
    requires
        !(header.state is Completed),
    ensures
        header.deliveries(history) <= 1,
        header.channel is None ==> header.deliveries(history) == 0,
        !(header.after(history).state is Completed) ==> header.deliveries(history) == 0
            && header.after(history).channel == header.channel,
        header.after(history).state is Completed ==> header.after(history).channel is None && (
        header.channel is Some ==> header.deliveries(history) == 1),
    decreases history.len(),
{
    if history.len() > 0 {
        lemma_one_outcome(header, history.drop_last());
    }
}

/// A task is never polled by two workers at once: whatever is done to a
/// task that starts out incomplete, at most one poll is open at any time, and
/// while one is open the next worker that asks is told that the task is busy.
pub proof fn lemma_polled_one_at_a_time<F, C, V, P>(
    header: Header<F, C>,
    history: Seq<Operation<F, V, P>>,
)
    requires
        header.state is Incomplete,
    ensures
        0 <= header.polls_open(history) <= 1,
        header.after(history).state is Polling ==> header.polls_open(history) == 1,
        header.after(history).state is Incomplete ==> header.polls_open(history) == 0,
        header.polls_open(history) == 1 ==> !header.after(history).starts_poll(
            Operation::<F, V, P>::Begin,
        ),
    decreases history.len(),
{
    if history.len() > 0 {
        lemma_polled_one_at_a_time(header, history.drop_last());
    }
}

/// A poll that ends with a value or a caught panic completes the task and
/// sets exactly that outcome on its channel, unless the task was aborted
/// during the poll; nothing that is done to the task afterwards sets another.
pub proof fn lemma_poll_settles<F, C, V, P>(
    header: Header<F, C>,
    polled: Polled<F, V, P>,
    later: Operation<F, V, P>,
)
    requires
        !(header.state is Completed),
        !(polled is Pending),
    ensures
        header.after_poll(polled).state is Completed,
        header.channel is None ==> header.poll_delivery(polled) is None,
        header.channel matches Some(channel) ==> match polled {
            Polled::Ready(value) => header.poll_delivery(polled) == Some(
                (channel, Ok::<V, Failure<P>>(value)),
            ),
            Polled::Panicked(payload) => header.poll_delivery(polled) == Some(
                (channel, Err::<V, Failure<P>>(Failure::Panic(payload))),
            ),
            Polled::Pending(_) => true,
        },
        header.after_poll(polled).delivers(later) is None,
{
}

/// The allocation of a task is freed only when nothing refers to it and the
/// task is completed, and whenever an operation leaves it so: a reference
/// still held keeps the task alive, completed or not, and a task that has not
/// ended is never freed.
pub proof fn lemma_freed_at_zero<F, C>(header: Header<F, C>)
    ensures
        header.dealloc() <==> header.refs == 0 && header.state is Completed,
        header.refs > 0 ==> !header.dealloc() && !header.ended().dealloc(),
        header.refs == 1 ==> header.ended().released().dealloc(),
        header.refs > 1 ==> !header.ended().released().dealloc(),
{
}

} // verus!
