use fast_pool::{spawn_detached, Shared, TaskType, WorkerAction};

type Tasks = TaskType<u32, u32, fn()>;

#[test]
fn new_queue_is_empty_and_open() {
    let mut shared: Shared<u8> = Shared::new();
    assert_eq!(shared.len(), 0);
    assert!(!shared.should_exit());
    assert!(shared.try_get().is_none());
    assert!(shared.wait().is_none());
}

#[test]
fn tasks_leave_in_the_order_of_submission() {
    let mut shared: Shared<u32> = Shared::new();
    for task in [10, 20, 30] {
        shared.schedule(task);
    }
    assert_eq!(shared.len(), 3);
    assert!(matches!(shared.wait(), Some(WorkerAction::Run(10))));
    assert!(matches!(shared.wake(), WorkerAction::Run(20)));
    assert_eq!(shared.try_get(), Some(30));
    assert_eq!(shared.len(), 0);
}

#[test]
fn wake_on_an_empty_queue_is_a_retry() {
    let mut shared: Shared<u32> = Shared::new();
    assert!(matches!(shared.wake(), WorkerAction::Retry));
    assert!(shared.wait().is_none());
    assert_eq!(shared.len(), 0);
}

#[test]
fn exit_flag_stops_dispatch() {
    let mut shared: Shared<u32> = Shared::new();
    shared.schedule(1);
    assert!(!shared.close());
    assert!(shared.should_exit());
    assert!(shared.close());
    assert!(matches!(shared.wait(), Some(WorkerAction::Exit)));
    assert!(matches!(shared.wake(), WorkerAction::Exit));
    assert_eq!(shared.len(), 1);
}

/// Submits as a submitter has to: it reads the exit flag first, and says
/// whether the pool still took the task.
fn submit(shared: &mut Shared<u32>, task: u32) -> bool {
    if shared.should_exit() {
        return false;
    }
    shared.schedule(task);
    true
}

#[test]
fn submission_to_a_running_pool_appends_at_the_tail() {
    let mut shared: Shared<u32> = Shared::new();
    assert!(submit(&mut shared, 1));
    assert!(submit(&mut shared, 2));
    assert_eq!(shared.len(), 2);
    assert_eq!(shared.clean(), vec![1, 2]);
}

#[test]
fn submitter_finds_the_exit_flag_set_after_shutdown() {
    let mut shared: Shared<u32> = Shared::new();
    assert!(submit(&mut shared, 1));
    shared.close();
    assert!(!submit(&mut shared, 2));
    assert_eq!(shared.len(), 1);
}

#[test]
fn clean_hands_out_what_was_left_in_order() {
    let mut shared: Shared<u32> = Shared::new();
    for task in [4, 5, 6] {
        shared.schedule(task);
    }
    shared.close();
    assert_eq!(shared.clean(), vec![4, 5, 6]);
    assert_eq!(shared.len(), 0);
    assert!(shared.should_exit());
    assert!(shared.clean().is_empty());
}

#[test]
fn clean_of_an_open_queue_keeps_it_open() {
    let mut shared: Shared<u32> = Shared::new();
    shared.schedule(9);
    assert_eq!(shared.clean(), vec![9]);
    assert!(!shared.should_exit());
    shared.schedule(8);
    assert_eq!(shared.try_get(), Some(8));
}

#[test]
fn detached_task_is_queued_as_synchronous() {
    let mut shared: Shared<Tasks> = Shared::new();
    shared.schedule(TaskType::Async(1));
    spawn_detached(&mut shared, 3);
    assert_eq!(shared.len(), 2);
    assert!(matches!(shared.try_get(), Some(TaskType::Async(1))));
    assert!(matches!(shared.try_get(), Some(TaskType::Sync(3))));
    assert!(!shared.should_exit());
    assert_eq!(shared.len(), 0);
}

#[test]
fn discard_keeps_the_asynchronous_tasks_only() {
    let left: Vec<Tasks> = vec![
        TaskType::Sync(1),
        TaskType::Async(2),
        TaskType::Sync(3),
        TaskType::Async(4),
        TaskType::Async(5),
    ];
    assert_eq!(TaskType::discard(left), vec![2, 4, 5]);
    let none: Vec<Tasks> = vec![TaskType::Sync(1)];
    assert!(TaskType::discard(none).is_empty());
    assert!(TaskType::<u32, u32, fn()>::discard(Vec::new()).is_empty());
}

#[test]
fn queue_keeps_its_condition_variable() {
    let mut shared: Shared<u32> = Shared::new();
    let condvar = std::sync::Arc::clone(shared.condvar());
    assert!(std::sync::Arc::ptr_eq(&condvar, shared.condvar()));
    shared.schedule(1);
    assert!(shared.wait().is_some());
    assert!(matches!(shared.wake(), WorkerAction::Retry));
    shared.close();
    assert!(shared.clean().is_empty());
    assert!(std::sync::Arc::ptr_eq(&condvar, shared.condvar()));
    // Two queues never share one.
    let other: Shared<u32> = Shared::new();
    assert!(!std::sync::Arc::ptr_eq(&condvar, other.condvar()));
}
