use fast_pool::{Failure, PollStart, Polled, Shared, TaskInner};

type Header = TaskInner<&'static str, u32>;

fn begin(task: &mut Header) -> &'static str {
    match task.begin_poll() {
        PollStart::Poll(machine) => machine,
        _ => panic!("the task is incomplete and nobody polls it"),
    }
}

#[test]
fn new_task_holds_the_reference_of_its_queue_slot() {
    let task: Header = TaskInner::new("machine", Some(1));
    assert_eq!(task.refs(), 1);
    assert!(!task.is_completed());
    assert!(!task.is_polling());
    assert!(!task.dealloc());
}

#[test]
fn poll_hands_the_machine_out_and_keeps_the_reference() {
    let mut task: Header = TaskInner::new("machine", None);
    assert_eq!(begin(&mut task), "machine");
    assert!(task.is_polling());
    assert_eq!(task.refs(), 1);
}

#[test]
fn task_is_busy_while_it_is_polled() {
    let mut task: Header = TaskInner::new("machine", Some(7));
    task.clone_waker();
    let machine = begin(&mut task);
    // The waker fires during the poll and a second worker takes the task.
    assert!(matches!(task.begin_poll(), PollStart::Busy));
    assert!(matches!(task.begin_poll(), PollStart::Busy));
    assert_eq!(task.refs(), 2);
    assert!(task.is_polling());
    let settled = task.end_poll(Polled::<_, u8, String>::Pending(machine));
    assert!(settled.delivery.is_none());
    assert!(!settled.free);
    assert_eq!(task.refs(), 1);
    // Now the second worker gets its turn.
    assert_eq!(begin(&mut task), "machine");
}

#[test]
fn ready_poll_delivers_the_value_and_frees() {
    let mut task: Header = TaskInner::new("machine", Some(7));
    begin(&mut task);
    let settled = task.end_poll(Polled::<_, u8, String>::Ready(3));
    assert!(matches!(settled.delivery, Some((7, Ok(3)))));
    assert!(settled.free);
    assert!(task.is_completed());
    assert_eq!(task.refs(), 0);
}

#[test]
fn panicked_poll_delivers_the_payload() {
    let mut task: Header = TaskInner::new("machine", Some(7));
    task.clone_waker();
    begin(&mut task);
    let settled = task.end_poll(Polled::<_, u8, String>::Panicked(String::from("why")));
    match settled.delivery {
        Some((7, Err(Failure::Panic(payload)))) => assert_eq!(payload, "why"),
        _ => panic!("the panic is delivered"),
    }
    // The cloned waker still refers to the task.
    assert!(!settled.free);
    assert!(task.is_completed());
    assert!(task.drop_waker());
}

#[test]
fn pending_poll_puts_the_machine_back() {
    let mut task: Header = TaskInner::new("machine", Some(7));
    begin(&mut task);
    task.clone_waker();
    let settled = task.end_poll(Polled::<_, u8, String>::Pending("advanced"));
    assert!(settled.delivery.is_none());
    assert!(!settled.free);
    assert!(!task.is_completed());
    assert!(!task.is_polling());
    assert_eq!(task.refs(), 1);
    assert_eq!(begin(&mut task), "advanced");
}

#[test]
fn detached_task_delivers_nothing() {
    let mut task: Header = TaskInner::new("machine", None);
    begin(&mut task);
    let settled = task.end_poll(Polled::<_, u8, String>::Ready(3));
    assert!(settled.delivery.is_none());
    assert!(settled.free);
}

#[test]
fn completed_task_is_not_polled_again_and_delivers_once() {
    let mut task: Header = TaskInner::new("machine", Some(7));
    task.clone_waker();
    task.clone_waker();
    begin(&mut task);
    assert!(task.end_poll(Polled::<_, u8, String>::Ready(3)).delivery.is_some());
    assert_eq!(task.refs(), 2);
    // Stale wakes bring the task back to a worker.
    assert!(matches!(task.begin_poll(), PollStart::Skip { free: false }));
    assert!(task.abort::<u8, String>().is_none());
    assert!(matches!(task.begin_poll(), PollStart::Skip { free: true }));
}

#[test]
fn task_aborted_during_a_poll_reports_the_shutdown_only() {
    let mut task: Header = TaskInner::new("machine", Some(7));
    task.clone_waker();
    begin(&mut task);
    let aborted = task.clean::<u8, String>();
    assert!(matches!(aborted.delivery, Some((7, Err(Failure::Shutdown)))));
    // The polling worker still refers to the task.
    assert!(!aborted.free);
    let settled = task.end_poll(Polled::<_, u8, String>::Ready(3));
    assert!(settled.delivery.is_none());
    assert!(settled.free);
    assert!(task.is_completed());
}

#[test]
fn abort_delivers_the_shutdown_and_keeps_the_references() {
    let mut task: Header = TaskInner::new("machine", Some(7));
    task.inc_waker();
    assert!(matches!(task.abort::<u8, String>(), Some((7, Err(Failure::Shutdown)))));
    assert!(task.is_completed());
    assert_eq!(task.refs(), 2);
    assert!(!task.dealloc());
    task.dec_waker();
    assert!(!task.dealloc());
    task.dec_waker();
    assert!(task.dealloc());
}

#[test]
fn clean_gives_up_one_reference() {
    let mut task: Header = TaskInner::new("machine", Some(7));
    let settled = task.clean::<u8, String>();
    assert!(matches!(settled.delivery, Some((7, Err(Failure::Shutdown)))));
    assert!(settled.free);

    let mut held: Header = TaskInner::new("machine", None);
    held.clone_waker();
    let settled = held.clean::<u8, String>();
    assert!(settled.delivery.is_none());
    assert!(!settled.free);
    assert_eq!(held.refs(), 1);
    assert!(held.drop_waker());
}

#[test]
fn wake_enqueues_while_the_pool_runs() {
    let mut shared: Shared<&'static str> = Shared::new();
    let mut task: Header = TaskInner::new("machine", Some(7));
    assert!(task.wake::<_, u8, String>(&mut shared, "handle").is_none());
    assert_eq!(task.refs(), 1);
    assert_eq!(shared.try_get(), Some("handle"));
    assert!(task.wake_by_ref::<_, u8, String>(&mut shared, "again").is_none());
    assert_eq!(task.refs(), 2);
    assert_eq!(shared.try_get(), Some("again"));
    assert!(!task.is_completed());
}

#[test]
fn wake_after_exit_aborts_and_enqueues_nothing() {
    let mut shared: Shared<&'static str> = Shared::new();
    shared.close();
    let mut task: Header = TaskInner::new("machine", Some(7));
    task.clone_waker();
    let by_ref = task.wake_by_ref::<_, u8, String>(&mut shared, "handle").unwrap();
    assert!(matches!(by_ref.delivery, Some((7, Err(Failure::Shutdown)))));
    assert!(!by_ref.free);
    assert_eq!(task.refs(), 2);
    let first = task.wake::<_, u8, String>(&mut shared, "handle").unwrap();
    assert!(first.delivery.is_none());
    assert!(!first.free);
    let last = task.wake::<_, u8, String>(&mut shared, "handle").unwrap();
    assert!(last.delivery.is_none());
    assert!(last.free);
    assert_eq!(shared.len(), 0);
    assert!(task.is_completed());
}

#[test]
fn dropping_the_last_waker_of_a_live_task_frees_nothing() {
    let mut task: Header = TaskInner::new("machine", None);
    assert!(!task.drop_waker());
    assert_eq!(task.refs(), 0);
    assert!(!task.is_completed());
}
