use fast_pool::threadpool::PoolPhase;
use fast_pool::{
    BuilderCall, Hook, PoolOptions, StartStep, ThreadName, ThreadPool, ThreadPoolBuilder, Worker,
};

type Builder = ThreadPoolBuilder<&'static str, fn() -> String>;

fn numbered() -> String {
    String::from("numbered")
}

#[test]
fn default_configuration() {
    let builder = Builder::new();
    assert!(builder.threads() >= 2);
    assert_eq!(builder.threads() % 2, 0);
    assert_eq!(builder.stack_size(), None);
    assert!(matches!(builder.name(), ThreadName::Fixed(name) if name == "fast_pool-worker"));
    for at in [Hook::OnStart, Hook::Before, Hook::After, Hook::OnStop] {
        assert!(builder.hook(at).is_none());
    }
}

#[test]
fn two_workers_for_each_processor() {
    assert_eq!(Builder::with_cpus(1).threads(), 2);
    assert_eq!(Builder::with_cpus(4).threads(), 8);
    assert_eq!(Builder::with_cpus(0).threads(), 0);
    assert_eq!(Builder::with_cpus(usize::MAX / 2).threads(), usize::MAX - 1);
    assert_eq!(Builder::with_cpus(usize::MAX / 2 + 1).threads(), usize::MAX);
    assert_eq!(Builder::with_cpus(usize::MAX).threads(), usize::MAX);
}

#[test]
fn each_setter_sets_its_own_field() {
    let builder = Builder::with_cpus(1)
        .before("b")
        .after("a")
        .on_start("s")
        .on_stop("e")
        .thread_stack_size(4096)
        .thread_number(3);
    assert_eq!(builder.hook(Hook::Before), Some(&"b"));
    assert_eq!(builder.hook(Hook::After), Some(&"a"));
    assert_eq!(builder.hook(Hook::OnStart), Some(&"s"));
    assert_eq!(builder.hook(Hook::OnStop), Some(&"e"));
    assert_eq!(builder.stack_size(), Some(4096));
    assert_eq!(builder.threads(), 3);
    assert!(matches!(builder.name(), ThreadName::Fixed(name) if name == "fast_pool-worker"));
}

#[test]
fn last_name_source_wins() {
    let builder = Builder::with_cpus(1).thread_name("fixed").thread_name_fn(numbered);
    assert!(matches!(builder.name(), ThreadName::Computed(_)));
    let builder = builder.thread_name("again");
    assert!(matches!(builder.name(), ThreadName::Fixed(name) if name == "again"));
}

fn specs(pool: &mut ThreadPool<&'static str, fn() -> String>) -> Vec<(String, Option<usize>, Worker<&'static str, u8>)> {
    let mut specs = Vec::new();
    let mut report = None;
    loop {
        match pool.step::<u8>(report) {
            StartStep::Spawn(spec) => {
                specs.push((spec.name, spec.stack_size, spec.worker));
                report = Some(true);
            }
            StartStep::Started => return specs,
            StartStep::Abort => panic!("every thread starts"),
        }
    }
}

#[test]
fn pool_asks_for_one_thread_per_worker() {
    let mut pool = Builder::with_cpus(1)
        .thread_number(3)
        .thread_name("w")
        .thread_stack_size(1 << 16)
        .before("b")
        .build();
    assert_eq!(pool.phase(), PoolPhase::Starting);
    assert_eq!(pool.threads(), 3);
    let specs = specs(&mut pool);
    assert_eq!(specs.len(), 3);
    for (name, stack_size, worker) in &specs {
        assert_eq!(name, "w");
        assert_eq!(*stack_size, Some(1 << 16));
        assert_eq!(worker.hook(Hook::Before), Some(&"b"));
        assert_eq!(worker.hook(Hook::After), None);
        assert!(!worker.is_waiting());
    }
    assert_eq!(pool.phase(), PoolPhase::Running);
    assert_eq!(pool.alive(), 3);
}

#[test]
fn naming_function_is_called_for_each_worker() {
    let mut pool = Builder::with_cpus(1).thread_name_fn(numbered).build();
    let specs = specs(&mut pool);
    assert_eq!(specs.len(), 2);
    assert!(specs.iter().all(|(name, _, _)| name == "numbered"));
}

#[test]
fn failed_spawn_aborts_the_start() {
    let mut pool = Builder::with_cpus(1).thread_number(3).build();
    assert!(matches!(pool.step::<u8>(None), StartStep::Spawn(_)));
    assert_eq!(pool.phase(), PoolPhase::Spawning);
    assert!(matches!(pool.step::<u8>(Some(true)), StartStep::Spawn(_)));
    assert_eq!(pool.alive(), 1);
    assert!(matches!(pool.step::<u8>(Some(false)), StartStep::Abort));
    assert_eq!(pool.phase(), PoolPhase::Failed);
    assert_eq!(pool.alive(), 1);

    let mut shared: fast_pool::Shared<u8> = fast_pool::Shared::new();
    assert_eq!(pool.shutdown(&mut shared), 1);
    assert!(shared.should_exit());
    assert_eq!(pool.phase(), PoolPhase::Closing);
    pool.joined();
    assert!(pool.clean(&mut shared).is_empty());
    assert_eq!(pool.phase(), PoolPhase::Stopped);
    assert_eq!(pool.alive(), 0);
}

#[test]
fn shutdown_of_a_used_pool_drains_the_queue() {
    let mut pool = Builder::with_cpus(1).build();
    specs(&mut pool);
    let mut shared: fast_pool::Shared<u8> = fast_pool::Shared::new();
    shared.schedule(1);
    shared.schedule(2);
    assert_eq!(shared.try_get(), Some(1));
    assert_eq!(pool.shutdown(&mut shared), 2);
    assert_eq!(shared.len(), 1);
    pool.joined();
    assert_eq!(pool.alive(), 1);
    pool.joined();
    assert_eq!(pool.clean(&mut shared), vec![2]);
    assert_eq!(shared.len(), 0);
    assert_eq!(pool.phase(), PoolPhase::Stopped);
}

fn options() -> PoolOptions {
    PoolOptions {
        threads: None,
        stack_size: None,
        name: None,
        name_fn: None,
        before: None,
        after: None,
    }
}

fn render(calls: &[BuilderCall]) -> Vec<String> {
    calls
        .iter()
        .map(|call| match call {
            BuilderCall::ThreadNumber(n) => format!("thread_number({})", n),
            BuilderCall::ThreadStackSize(n) => format!("thread_stack_size({})", n),
            BuilderCall::ThreadName(name) => format!("thread_name({:?})", name),
            BuilderCall::ThreadNameFn(fun) => format!("thread_name_fn({})", fun),
            BuilderCall::Before(fun) => format!("before({})", fun),
            BuilderCall::After(fun) => format!("after({})", fun),
        })
        .collect()
}

#[test]
fn no_option_no_call() {
    let options = options();
    assert!(options.is_valid());
    assert!(options.to_calls().is_empty());
}

#[test]
fn options_become_calls_in_a_fixed_order() {
    let options = PoolOptions {
        threads: Some(4),
        stack_size: Some(4096),
        name: Some(String::from("Worker")),
        name_fn: None,
        before: Some(String::from("hook")),
        after: Some(String::from("hook")),
    };
    assert!(options.is_valid());
    assert_eq!(
        render(&options.to_calls()),
        vec![
            "thread_number(4)",
            "thread_stack_size(4096)",
            "thread_name(\"Worker\")",
            "before(hook)",
            "after(hook)"
        ]
    );
    let named = PoolOptions { name_fn: Some(String::from("name")), ..self::options() };
    assert_eq!(render(&named.to_calls()), vec!["thread_name_fn(name)"]);
}

#[test]
fn name_and_naming_function_exclude_each_other() {
    let both = PoolOptions {
        name: Some(String::from("Worker")),
        name_fn: Some(String::from("name")),
        ..options()
    };
    assert!(!both.is_valid());
    let one = PoolOptions { name: Some(String::from("Worker")), ..options() };
    assert!(one.is_valid());
}
