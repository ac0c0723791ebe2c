use safe_file::runtime::{configure, configure_with};
use safe_file::RuntimeConfig;

fn expected(workers: usize) -> RuntimeConfig {
    RuntimeConfig {
        workers,
        queue_capacity: 100000,
        own_weight: 1,
        shared_weight: 1,
        steal_interval: 3000,
        stack_size: 1024 * 1024,
        idle_timeout: 10,
        timer_interval: 10,
    }
}

#[test]
fn declared_worker_count_wins() {
    assert_eq!(configure_with(Some(4), 16), expected(4));
    assert_eq!(configure(Some(4)), expected(4));
}

#[test]
fn undeclared_worker_count_is_the_core_count() {
    assert_eq!(configure_with(None, 16), expected(16));
    assert_eq!(configure_with(None, 1), expected(1));
}

#[test]
fn declared_zero_is_kept() {
    assert_eq!(configure_with(Some(0), 8), expected(0));
}

#[test]
fn this_machine_has_at_least_one_core() {
    let config = configure(None);
    assert!(config.workers >= 1);
    assert_eq!(config, expected(config.workers));
}
