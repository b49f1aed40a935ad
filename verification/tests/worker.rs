use mediasoup_demo::worker::{
    thread_count, thread_count_for, PendingPool, PoolStep, WorkerPool, RTC_PORTS_FIRST,
    RTC_PORTS_LAST,
};

fn pool_of(names: &[&'static str]) -> WorkerPool<&'static str> {
    let mut pending: PendingPool<&'static str> = WorkerPool::new(names.len()).unwrap();
    for (i, name) in names.iter().enumerate() {
        match pending.worker_created(Ok::<_, String>(*name)) {
            PoolStep::CreateWorker(next) => {
                assert!(i + 1 < names.len());
                pending = next;
            }
            PoolStep::Ready(pool) => {
                assert_eq!(i + 1, names.len());
                return pool;
            }
            PoolStep::Failed(error) => panic!("{}", error),
        }
    }
    unreachable!()
}

#[test]
fn pool_of_no_workers_is_refused() {
    let pending: Result<PendingPool<u8>, String> = WorkerPool::new(0);
    assert_eq!(pending.err().unwrap(), "Worker pool size must not be 0.");
}

#[test]
fn pool_is_not_set_up_when_a_worker_fails() {
    let pending: PendingPool<u8> = WorkerPool::new(2).unwrap();
    let pending = match pending.worker_created(Ok::<u8, &str>(1)) {
        PoolStep::CreateWorker(pending) => pending,
        _ => panic!("one worker is missing"),
    };
    assert!(matches!(pending.worker_created(Err("no worker")), PoolStep::Failed("no worker")));
}

#[test]
fn workers_are_handed_out_in_turn() {
    let mut pool = pool_of(&["a", "b", "c"]);
    let mut seen = Vec::new();
    for _ in 0..7 {
        seen.push(pool.next());
    }
    assert_eq!(seen, vec!["a", "b", "c", "a", "b", "c", "a"]);
}

#[test]
fn single_worker_is_handed_out_every_time() {
    let mut pool = pool_of(&["only"]);
    assert_eq!(pool.next(), "only");
    assert_eq!(pool.next(), "only");
}

#[test]
fn thread_count_is_what_was_asked_for() {
    assert_eq!(thread_count(Some(3)), 3);
    assert_eq!(thread_count(Some(0)), 0);
    assert_eq!(thread_count_for(Some(3), 8), 3);
}

#[test]
fn thread_count_defaults_to_the_cores() {
    assert_eq!(thread_count_for(None, 8), 8);
    assert_eq!(thread_count(None), num_cpus::get());
    assert!(thread_count(None) >= 1);
}

#[test]
fn rtc_ports_span_fifty_one_ports() {
    assert_eq!(RTC_PORTS_FIRST, 40000);
    assert_eq!(RTC_PORTS_LAST, 40050);
}
