//! The timer: the thread-owned list of periodic tasks that wait for their
//! next run, fed through a channel and emptied into the ready queue.

use crate::task::{Periodic, PeriodicTask};
use crossbeam_channel::{Receiver, RecvTimeoutError, SendError, Sender};
use vstd::prelude::*;

verus! {

/// The sending side of a channel of crossbeam_channel. Nothing is known of
/// the messages under way.
#[verifier::external_type_specification]
#[verifier::external_body]
#[verifier::reject_recursive_types(T)]
pub struct ExSender<T>(Sender<T>);

/// The receiving side of a channel of crossbeam_channel.
#[verifier::external_type_specification]
#[verifier::external_body]
#[verifier::reject_recursive_types(T)]
pub struct ExReceiver<T>(Receiver<T>);

/// Why a bounded wait for a message gave none: `Timeout` or `Disconnected`.
#[verifier::external_type_specification]
pub struct ExRecvTimeoutError(RecvTimeoutError);

/// The error of a send, which holds the message that was not sent.
#[verifier::external_type_specification]
pub struct ExSendError<T>(SendError<T>);

/// A message to the timer.
pub enum TimerAction<F> {
    /// Hold the task until its next run is due.
    Schedule(PeriodicTask<F>),
    /// End at once.
    Abort,
}

/// A new channel without a bound on the messages it holds, as
/// `crossbeam_channel::unbounded` makes it.
#[verifier::external_body]
fn channel<M>() -> (ends: (Sender<M>, Receiver<M>)) {
    crossbeam_channel::unbounded()
}

/// `Sender::send`. On an unbounded channel it does not block. It fails only
/// where every receiver is gone, and then the error holds the message.
#[verifier::external_body]
fn send<M>(sender: &Sender<M>, message: M) -> (sent: Result<(), SendError<M>>)
    ensures
        sent matches Err(error) ==> error.0 == message,
{
    sender.send(message)
}

/// `Receiver::recv_timeout` with a timeout of `millis` milliseconds: the
/// next message, or why there is none. Which of them comes back depends on
/// the senders and the clock. The timeout is kept within the backoff
/// schedule, far from where the deadline would leave the clock's range and
/// the wait would be unbounded.
#[verifier::external_body]
fn receive<M>(receiver: &Receiver<M>, millis: u64) -> (received: Result<M, RecvTimeoutError>)
    requires
        millis <= 2500,
{
    receiver.recv_timeout(std::time::Duration::from_millis(millis))
}

/// `Sender::clone`: one more sender of the same channel.
#[verifier::external_body]
fn resend<M>(sender: &Sender<M>) -> (copy: Sender<M>) {
    sender.clone()
}

/// The number of steps of the backoff schedule.
pub const BACKOFF_STEPS: u8 = 34;

/// The time, in milliseconds, that the timer waits for a message at step
/// `step` of its backoff: from 100 ms in steps of 50 ms up to one second,
/// then in steps of 100 ms up to 2.5 s.
pub open spec fn backoff_millis(step: int) -> int {
    if step < 19 {
        100 + 50 * step
    } else {
        1000 + 100 * (step - 18)
    }
}

/// The wait in milliseconds at step `step` of the backoff.
pub fn backoff(step: u8) -> (millis: u64)
    requires
        step < BACKOFF_STEPS,
    ensures
        millis == backoff_millis(step as int),
{
    let step: u64 = step as u64;
    if step < 19 {
        100 + 50 * step
    } else {
        1000 + 100 * (step - 18)
    }
}

/// The handle through which tasks reach the timer.
#[verifier::reject_recursive_types(F)]
pub struct TimerHandle<F> {
    sender: Sender<TimerAction<F>>,
}

/// The state of the timer, owned by the one thread that runs it.
#[verifier::reject_recursive_types(F)]
pub struct Timer<F> {
    tasks: Vec<PeriodicTask<F>>,
    receiver: Receiver<TimerAction<F>>,
    sleep: u8,
}

/// How a wait for messages ended.
#[derive(Clone, Copy, Debug, PartialEq, Eq, Structural)]
pub enum TimerStep {
    /// Go on: fire what is due and wait again.
    Continue,
    /// The backoff schedule is used up; nothing was waited for.
    Expired,
    /// An `Abort` arrived, or every handle is gone.
    Abort,
}

/// Why the timer's thread ends.
#[derive(Clone, Copy, Debug, PartialEq, Eq, Structural)]
pub enum TimerExit {
    /// Idle for the whole backoff schedule with no task held: the timer
    /// takes itself out of the context, and the next periodic task starts a
    /// new one.
    Idle,
    /// Told to end, or cut off from every handle.
    Aborted,
}

/// [`Timer`] as a plain value: the tasks held, in the order in which they
/// arrived, and the step of the backoff.
pub struct TimerState<F> {
    pub tasks: Seq<Periodic<F>>,
    pub sleep: u8,
}

impl<F> TimerState<F> {
    /// The state after a wait for messages that gave `received`.
    pub open spec fn after(self, received: Result<TimerAction<F>, RecvTimeoutError>) -> Self {
        match received {
            Ok(TimerAction::Schedule(task)) => TimerState { tasks: self.tasks.push(task@), sleep: 0 },
            Ok(TimerAction::Abort) => self,
            Err(RecvTimeoutError::Timeout) => TimerState { sleep: (self.sleep + 1) as u8, ..self },
            Err(RecvTimeoutError::Disconnected) => self,
        }
    }

    /// How a wait that gave `received` ended.
    pub open spec fn verdict(received: Result<TimerAction<F>, RecvTimeoutError>) -> TimerStep {
        match received {
            Ok(TimerAction::Schedule(_)) => TimerStep::Continue,
            Ok(TimerAction::Abort) => TimerStep::Abort,
            Err(RecvTimeoutError::Timeout) => TimerStep::Continue,
            Err(RecvTimeoutError::Disconnected) => TimerStep::Abort,
        }
    }

    /// Whether, and why, the timer ends after a wait that ended with `step`.
    pub open spec fn exit(self, step: TimerStep) -> Option<TimerExit> {
        match step {
            TimerStep::Continue => None,
            TimerStep::Expired => if self.tasks.len() == 0 {
                Some(TimerExit::Idle)
            } else {
                None
            },
            TimerStep::Abort => Some(TimerExit::Aborted),
        }
    }

    /// The tasks held that are due at `now`, in the order held.
    pub open spec fn due(self, now: u64) -> Seq<Periodic<F>> {
        self.tasks.filter(is_due(now))
    }

    /// The tasks held that are not yet due at `now`, in the order held.
    pub open spec fn pending(self, now: u64) -> Seq<Periodic<F>> {
        self.tasks.filter(not_due(now))
    }
}

/// The test for a task that is due at `now`.
pub open spec fn is_due<F>(now: u64) -> spec_fn(Periodic<F>) -> bool {
    |task: Periodic<F>| task.can_run(now)
}

/// The test for a task that is not yet due at `now`.
pub open spec fn not_due<F>(now: u64) -> spec_fn(Periodic<F>) -> bool {
    |task: Periodic<F>| !task.can_run(now)
}

/// A list of tasks as plain values.
pub open spec fn plain<F>(tasks: Seq<PeriodicTask<F>>) -> Seq<Periodic<F>> {
    tasks.map_values(|task: PeriodicTask<F>| task@)
}

impl<F> View for Timer<F> {
    type V = TimerState<F>;

    closed spec fn view(&self) -> TimerState<F> {
        TimerState { tasks: plain(self.tasks@), sleep: self.sleep }
    }
}

impl<F> Clone for TimerHandle<F> {
    /// One more handle to the same timer.
    fn clone(&self) -> (copy: Self) {
        TimerHandle { sender: resend(&self.sender) }
    }
}

impl<F> TimerHandle<F> {
    /// Sends `task` to the timer. Where the timer has ended the task comes
    /// back.
    pub fn schedule(&self, task: PeriodicTask<F>) -> (sent: Result<(), PeriodicTask<F>>)
        ensures
            Self::sends(task, sent),
            sent matches Err(back) ==> back == task,
    {
        Self::give_back(send(&self.sender, TimerAction::Schedule(task)))
    }

    /// What the sender of a message has back once the send came to `sent`:
    /// nothing where the timer took the message, and the task where a
    /// `Schedule` was not taken. An `Abort` that was not taken holds no task.
    pub open spec fn returned(sent: Result<(), SendError<TimerAction<F>>>) -> Result<
        (),
        PeriodicTask<F>,
    > {
        match sent {
            Ok(()) => Ok(()),
            Err(error) => match error.0 {
                TimerAction::Schedule(task) => Err(task),
                TimerAction::Abort => Ok(()),
            },
        }
    }

    /// Whether `back` is what a send of `Schedule(task)` can come to: the
    /// outcome of the send is either success or an error that holds the
    /// message as it was sent, and `back` is what is returned for it. Which
    /// of the two it is depends on whether the timer still takes messages,
    /// and that is for the timer's thread to decide.
    pub open spec fn sends(task: PeriodicTask<F>, back: Result<(), PeriodicTask<F>>) -> bool {
        exists|sent: Result<(), SendError<TimerAction<F>>>|
            (sent matches Err(error) ==> error.0 == TimerAction::Schedule(task)) && back
                == #[trigger] Self::returned(sent)
    }

    /// Takes the task out of the outcome of a send, where the message was
    /// not taken and holds one.
    pub fn give_back(sent: Result<(), SendError<TimerAction<F>>>) -> (back: Result<
        (),
        PeriodicTask<F>,
    >)
        ensures
            back == Self::returned(sent),
    {
        match sent {
            Ok(()) => Ok(()),
            Err(error) => match error.0 {
                TimerAction::Schedule(task) => Err(task),
                TimerAction::Abort => Ok(()),
            },
        }
    }

    /// Tells the timer to end. A timer that has ended already is left alone.
    pub fn shutdown(self) {
        let _ = send(&self.sender, TimerAction::Abort);
    }
}

impl<F> Timer<F> {
    /// A timer that holds no task and stands at the first step of its
    /// backoff, with the handle that feeds it. The caller runs the timer on a
    /// thread of its own.
    pub fn init() -> (made: (TimerHandle<F>, Timer<F>))
        ensures
            made.1@ == (TimerState { tasks: Seq::<Periodic<F>>::empty(), sleep: 0 }),
    {
        let (sender, receiver) = channel();
        let timer = Timer { tasks: Vec::new(), receiver, sleep: 0 };
        assert(timer@.tasks =~= Seq::<Periodic<F>>::empty());
        (TimerHandle { sender }, timer)
    }

    /// The number of tasks held.
    pub fn len(&self) -> (n: usize)
        ensures
            n == self@.tasks.len(),
    {
        self.tasks.len()
    }

    /// The step of the backoff at which the timer stands.
    pub fn sleep(&self) -> (step: u8)
        ensures
            step == self@.sleep,
    {
        self.sleep
    }

    /// Takes out the tasks that are due at `now` and hands them out, in the
    /// order in which they arrived, to be put into the ready queue. The tasks
    /// not yet due stay, in their order.
    pub fn schedule_available(&mut self, now: u64) -> (due: Vec<PeriodicTask<F>>)
        ensures
            plain(due@) == old(self)@.due(now),
            final(self)@.tasks == old(self)@.pending(now),
            final(self)@.sleep == old(self)@.sleep,
    {
        let ghost held = self@.tasks;
        let ghost mut seen: int = 0;
        let mut due: Vec<PeriodicTask<F>> = Vec::new();
        let mut i: usize = 0;
        assert(plain(due@) =~= held.take(0).filter(is_due(now))) by {
            reveal(Seq::filter);
        }
        assert(plain(self.tasks@).take(0) =~= held.take(0).filter(not_due(now))) by {
            reveal(Seq::filter);
        }
        while i < self.tasks.len()
            invariant
                self.sleep == old(self).sleep,
                i <= self.tasks.len(),
                0 <= seen <= held.len(),
                plain(self.tasks@).take(i as int) == held.take(seen).filter(not_due(now)),
                plain(due@) == held.take(seen).filter(is_due(now)),
                plain(self.tasks@).skip(i as int) == held.skip(seen),
            decreases self.tasks.len() - i,
        {
            let ghost before = plain(self.tasks@);
            assert(before[i as int] == before.skip(i as int)[0]);
            assert(before.skip(i as int).len() == held.len() - seen);
            assert(held.take(seen + 1) =~= held.take(seen).push(held[seen]));
            assert(held.skip(seen).skip(1) =~= held.skip(seen + 1));
            proof {
                held.take(seen).lemma_filter_push(held[seen], is_due(now));
                held.take(seen).lemma_filter_push(held[seen], not_due(now));
                seen = seen + 1;
            }
            if self.tasks[i].can_run(now) {
                let task = self.tasks.remove(i);
                due.push(task);
            } else {
                i = i + 1;
            }
        }
        assert(held.take(seen) =~= held);
        due
    }

    /// Waits for a message, for as long as the step of the backoff says, and
    /// takes account of what arrived. Nothing is waited for once the schedule
    /// is used up.
    pub fn try_recv_timeout(&mut self) -> (step: TimerStep)
        ensures
            old(self)@.sleep >= BACKOFF_STEPS ==> step == TimerStep::Expired && final(self)@ == old(
                self,
            )@,
            old(self)@.sleep < BACKOFF_STEPS ==> exists|
                received: Result<TimerAction<F>, RecvTimeoutError>,
            |
                step == TimerState::verdict(received) && final(self)@ == old(self)@.after(received),
    {
        if self.sleep >= BACKOFF_STEPS {
            return TimerStep::Expired;
        }
        let received = receive(&self.receiver, backoff(self.sleep));
        self.handle(received)
    }

    /// Takes account of what a wait for messages gave: a task to hold sets
    /// the backoff back to its first step, a timeout moves it one step on, an
    /// `Abort` or the loss of every handle ends the timer.
    pub fn handle(&mut self, received: Result<TimerAction<F>, RecvTimeoutError>) -> (step: TimerStep)
        requires
            old(self)@.sleep < BACKOFF_STEPS,
        ensures
            step == TimerState::verdict(received),
            final(self)@ == old(self)@.after(received),
    {
        match received {
            Ok(TimerAction::Schedule(task)) => {
                self.tasks.push(task);
                self.sleep = 0;
                assert(self@.tasks =~= old(self)@.tasks.push(task@));
                TimerStep::Continue
            },
            Ok(TimerAction::Abort) => TimerStep::Abort,
            Err(RecvTimeoutError::Timeout) => {
                self.sleep = self.sleep + 1;
                TimerStep::Continue
            },
            Err(RecvTimeoutError::Disconnected) => TimerStep::Abort,
        }
    }

    /// Whether, and why, the timer's thread ends after a wait that ended
    /// with `step`.
    pub fn exit(&self, step: TimerStep) -> (exit: Option<TimerExit>)
        ensures
            exit == self@.exit(step),
    {
        match step {
            TimerStep::Continue => None,
            TimerStep::Expired => if self.tasks.len() == 0 {
                Some(TimerExit::Idle)
            } else {
                None
            },
            TimerStep::Abort => Some(TimerExit::Aborted),
        }
    }
}

/// The backoff starts at 100 ms, never shortens from one step to the next,
/// and never exceeds 2.5 s.
pub proof fn lemma_backoff_schedule(earlier: int, later: int)
    requires
        0 <= earlier <= later < BACKOFF_STEPS,
    ensures
        backoff_millis(0) == 100,
        backoff_millis(BACKOFF_STEPS - 1) == 2500,
        100 <= backoff_millis(earlier) <= backoff_millis(later) <= 2500,
{
}

/// A task that arrives sets the backoff back to its first step; a timeout
/// moves it one step on; nothing else touches it, and nothing but an arriving
/// task touches the list of tasks held.
pub proof fn lemma_backoff_resets_on_activity<F>(
    timer: TimerState<F>,
    received: Result<TimerAction<F>, RecvTimeoutError>,
)
    requires
        timer.sleep < BACKOFF_STEPS,
    ensures
        received matches Ok(TimerAction::Schedule(task)) ==> timer.after(received).sleep == 0
            && timer.after(received).tasks == timer.tasks.push(task@),
        received == Err::<TimerAction<F>, RecvTimeoutError>(RecvTimeoutError::Timeout)
            ==> timer.after(received).sleep == timer.sleep + 1 && timer.after(received).tasks
            == timer.tasks,
        !(received matches Ok(TimerAction::Schedule(_))) ==> timer.after(received).tasks
            == timer.tasks,
{
}

} // verus!
