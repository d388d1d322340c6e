//! The one-shot result channel: a cell for the outcome of one task and for
//! the notifier of whoever waits for it.

use crate::outcome::Outcome;
use crossbeam_utils::sync::{Parker, Unparker};
use std::task::{Context, Poll, Waker};
use vstd::prelude::*;

verus! {

/// The parker of crossbeam_utils: the side of a parking primitive that
/// blocks. Nothing is known of its token.
#[verifier::external_type_specification]
#[verifier::external_body]
pub struct ExParker(Parker);

/// The unparker of crossbeam_utils: the side that wakes a parker.
#[verifier::external_type_specification]
#[verifier::external_body]
pub struct ExUnparker(Unparker);

/// The waker of std, opaque here.
#[verifier::external_type_specification]
#[verifier::external_body]
pub struct ExWaker(std::task::Waker);

/// The context of a poll of std, opaque here.
#[verifier::external_type_specification]
#[verifier::external_body]
pub struct ExContext<'a>(std::task::Context<'a>);

/// The result of a poll of std, with its two variants.
#[verifier::external_type_specification]
#[verifier::reject_recursive_types(T)]
pub struct ExPoll<T>(std::task::Poll<T>);

/// A fresh `Parker` of crossbeam_utils, as `Parker::new` makes it: its token
/// is absent.
#[verifier::external_body]
fn parker() -> (parker: Parker) {
    Parker::new()
}

/// `Parker::unparker`: the unparker that belongs to `parker`.
#[verifier::external_body]
fn unparker_of(parker: &Parker) -> (unparker: &Unparker) {
    parker.unparker()
}

/// `Unparker::clone`: one more unparker for the same parker.
#[verifier::external_body]
fn another(unparker: &Unparker) -> (copy: Unparker) {
    unparker.clone()
}

/// `Unparker::unpark`: makes the token of the parker available and wakes
/// the thread parked on it, if there is one.
#[verifier::external_body]
fn unpark(unparker: &Unparker) {
    unparker.unpark()
}

/// `Context::waker`: the waker that the context of a poll carries.
#[verifier::external_body]
fn waker_of<'a, 'b>(cx: &'a Context<'b>) -> (waker: &'a Waker) {
    cx.waker()
}

/// `Waker::clone`: one more waker for the same task.
#[verifier::external_body]
fn duplicate(waker: &Waker) -> (copy: Waker) {
    waker.clone()
}

/// `Waker::wake`: tells the executor behind the waker to poll its task
/// again.
#[verifier::external_body]
fn wake(waker: Waker) {
    waker.wake()
}

/// Who is to be told that an outcome has arrived.
pub enum Notifier {
    /// A thread parked in a blocking wait.
    Unparker(Unparker),
    /// A suspended asynchronous waiter.
    Waker(Waker),
}

impl Notifier {
    /// Tells the waiter, and is used up by it.
    pub fn notify(self) {
        match self {
            Notifier::Unparker(unparker) => unpark(&unparker),
            Notifier::Waker(waker) => wake(waker),
        }
    }
}

/// The cell that the two ends of a result channel share. It holds at most
/// one outcome, written by the producer and taken by the consumer, and at
/// most one notifier, installed by the consumer and fired by the producer.
pub struct ChannelInner<T, P> {
    data: Option<Outcome<T, P>>,
    notifier: Option<Notifier>,
}

/// What a consumer that wants to block has to do.
pub enum Waiting<T, P> {
    /// The outcome was there already.
    Ready(Outcome<T, P>),
    /// Nothing has arrived. The unparker of this parker is installed as the
    /// notifier: park on it, away from the cell, and take the outcome after.
    Park(Parker),
}

impl<T, P> ChannelInner<T, P> {
    /// The outcome that the cell holds, if any.
    pub closed spec fn data(&self) -> Option<Outcome<T, P>> {
        self.data
    }

    /// The notifier that is installed, if any.
    pub closed spec fn notifier(&self) -> Option<Notifier> {
        self.notifier
    }

    /// An empty cell.
    pub fn new() -> (cell: Self)
        ensures
            cell.data() is None,
            cell.notifier() is None,
    {
        ChannelInner { data: None, notifier: None }
    }

    /// Whether a notifier is installed.
    pub fn has_notifier(&self) -> (installed: bool)
        ensures
            installed == self.notifier() is Some,
    {
        self.notifier.is_some()
    }

    /// Installs `waker` as the notifier, in place of any other.
    pub fn set_waker(&mut self, waker: Waker)
        ensures
            final(self).notifier() == Some(Notifier::Waker(waker)),
            final(self).data() == old(self).data(),
    {
        self.notifier = Some(Notifier::Waker(waker));
    }

    /// Takes the outcome out of the cell, if it has arrived. Does not block.
    pub fn try_get(&mut self) -> (outcome: Option<Outcome<T, P>>)
        ensures
            outcome == old(self).data(),
            final(self).data() is None,
            final(self).notifier() == old(self).notifier(),
    {
        self.data.take()
    }

    /// Records the outcome and fires the notifier, if one is installed. The
    /// producer calls it once.
    pub fn set(&mut self, value: Outcome<T, P>)
        ensures
            final(self).data() == Some(value),
            final(self).notifier() is None,
    {
        self.data = Some(value);
        match self.notifier.take() {
            Some(notifier) => notifier.notify(),
            None => {},
        }
    }

    /// The asynchronous wait: the outcome if it has arrived, else `Pending`
    /// with the waker of `cx` installed as the notifier.
    pub fn wait_async(&mut self, cx: &Context<'_>) -> (polled: Poll<Outcome<T, P>>)
        ensures
            final(self).data() is None,
            match old(self).data() {
                Some(outcome) => polled == Poll::Ready(outcome) && final(self).notifier() == old(
                    self,
                ).notifier(),
                None => polled is Pending && final(self).notifier() matches Some(Notifier::Waker(_)),
            },
    {
        match self.try_get() {
            Some(outcome) => Poll::Ready(outcome),
            None => {
                self.set_waker(duplicate(waker_of(cx)));
                Poll::Pending
            },
        }
    }

    /// The blocking wait, up to the point where the caller has to sleep: the
    /// outcome if it has arrived, else a parker whose unparker is installed
    /// as the notifier.
    ///
    /// Check and installation are one step on the cell, so no outcome can
    /// arrive between them unnoticed: an outcome that arrives later finds the
    /// notifier and fires it.
    pub fn wait(&mut self) -> (waiting: Waiting<T, P>)
        ensures
            final(self).data() is None,
            match old(self).data() {
                Some(outcome) => waiting == Waiting::Ready(outcome) && final(self).notifier() == old(
                    self,
                ).notifier(),
                None => waiting is Park && final(self).notifier() matches Some(
                    Notifier::Unparker(_),
                ),
            },
    {
        match self.try_get() {
            Some(outcome) => Waiting::Ready(outcome),
            None => {
                let parker = parker();
                self.notifier = Some(Notifier::Unparker(another(unparker_of(&parker))));
                Waiting::Park(parker)
            },
        }
    }
}

} // verus!
