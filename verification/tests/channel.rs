use fast_pool::outcome::settle;
use fast_pool::{ChannelInner, Failure, Notifier, Waiting};
use std::sync::atomic::{AtomicUsize, Ordering};
use std::sync::Arc;
use std::task::{Context, Poll, Wake, Waker};
use std::time::{Duration, Instant};

struct Count(AtomicUsize);

impl Wake for Count {
    fn wake(self: Arc<Self>) {
        self.0.fetch_add(1, Ordering::SeqCst);
    }
}

fn counting_waker() -> (Arc<Count>, Waker) {
    let count = Arc::new(Count(AtomicUsize::new(0)));
    let waker = Waker::from(count.clone());
    (count, waker)
}

#[test]
fn empty_cell_has_nothing_to_give() {
    let mut cell: ChannelInner<u8, String> = ChannelInner::new();
    assert!(cell.try_get().is_none());
    assert!(!cell.has_notifier());
}

#[test]
fn outcome_is_taken_once() {
    let mut cell: ChannelInner<u8, String> = ChannelInner::new();
    cell.set(Ok(5));
    assert!(matches!(cell.try_get(), Some(Ok(5))));
    assert!(cell.try_get().is_none());
}

#[test]
fn caught_panic_travels_as_a_failure() {
    let mut cell: ChannelInner<u8, String> = ChannelInner::new();
    cell.set(settle(Err(String::from("boom"))));
    match cell.try_get() {
        Some(Err(Failure::Panic(payload))) => assert_eq!(payload, "boom"),
        _ => panic!("a panic was set"),
    }
    assert!(matches!(settle::<u8, String>(Ok(3)), Ok(3)));
}

#[test]
fn blocking_wait_finds_an_outcome_that_is_there() {
    let mut cell: ChannelInner<u8, String> = ChannelInner::new();
    cell.set(Ok(1));
    assert!(matches!(cell.wait(), Waiting::Ready(Ok(1))));
    assert!(!cell.has_notifier());
    assert!(cell.try_get().is_none());
}

#[test]
fn blocking_wait_parks_until_the_outcome_is_set() {
    let mut cell: ChannelInner<u8, String> = ChannelInner::new();
    let parker = match cell.wait() {
        Waiting::Park(parker) => parker,
        Waiting::Ready(_) => panic!("nothing was set"),
    };
    assert!(cell.has_notifier());

    // Nothing was set: the parker has no token and a bounded park times out.
    let before = Instant::now();
    parker.park_timeout(Duration::from_millis(50));
    assert!(before.elapsed() >= Duration::from_millis(50));

    // Setting the outcome fires the notifier: the token is there at once.
    cell.set(Ok(9));
    assert!(!cell.has_notifier());
    let before = Instant::now();
    parker.park_timeout(Duration::from_secs(10));
    assert!(before.elapsed() < Duration::from_secs(5));
    assert!(matches!(cell.try_get(), Some(Ok(9))));
}

#[test]
fn asynchronous_wait_installs_the_waker_and_is_woken_once() {
    let mut cell: ChannelInner<u8, String> = ChannelInner::new();
    let (count, waker) = counting_waker();
    let cx = Context::from_waker(&waker);
    assert!(matches!(cell.wait_async(&cx), Poll::Pending));
    assert!(cell.has_notifier());
    assert_eq!(count.0.load(Ordering::SeqCst), 0);
    cell.set(Err(Failure::Shutdown));
    assert_eq!(count.0.load(Ordering::SeqCst), 1);
    assert!(!cell.has_notifier());
    assert!(matches!(cell.wait_async(&cx), Poll::Ready(Err(Failure::Shutdown))));
    assert!(!cell.has_notifier());
    assert_eq!(count.0.load(Ordering::SeqCst), 1);
}

#[test]
fn set_waker_replaces_the_notifier() {
    let mut cell: ChannelInner<u8, String> = ChannelInner::new();
    let (first, first_waker) = counting_waker();
    let (second, second_waker) = counting_waker();
    cell.set_waker(first_waker);
    cell.set_waker(second_waker);
    cell.set(Ok(0));
    assert_eq!(first.0.load(Ordering::SeqCst), 0);
    assert_eq!(second.0.load(Ordering::SeqCst), 1);
}

#[test]
fn waker_notifier_wakes() {
    let (count, waker) = counting_waker();
    Notifier::Waker(waker).notify();
    assert_eq!(count.0.load(Ordering::SeqCst), 1);
}
