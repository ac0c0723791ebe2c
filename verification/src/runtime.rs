//! How the worker runtime that carries out file requests is set up.

use vstd::prelude::*;

verus! {

/// Tasks that each worker's own queue holds.
pub const QUEUE_CAPACITY: usize = 100000;

/// Weight of a worker's own queue against the shared one, and the reverse.
pub const QUEUE_WEIGHT: u8 = 1;

/// How often, in tasks, a worker looks for work to take over.
pub const STEAL_INTERVAL: usize = 3000;

/// Stack of each worker thread, in bytes.
pub const STACK_SIZE: usize = 1048576;

/// How long an idle worker sleeps, in milliseconds.
pub const IDLE_TIMEOUT: u64 = 10;

/// The timer's tick, in milliseconds.
pub const TIMER_INTERVAL: usize = 10;

/// The settings of the worker runtime.
#[derive(Clone, Copy, Debug, PartialEq, Eq, Structural)]
pub struct RuntimeConfig {
    /// The number of workers: at the start, at least and at most.
    pub workers: usize,
    pub queue_capacity: usize,
    pub own_weight: u8,
    pub shared_weight: u8,
    pub steal_interval: usize,
    pub stack_size: usize,
    pub idle_timeout: u64,
    pub timer_interval: usize,
}

impl RuntimeConfig {
    /// The settings of a runtime with `workers` workers.
    pub open spec fn with_workers(workers: usize) -> RuntimeConfig {
        RuntimeConfig {
            workers,
            queue_capacity: QUEUE_CAPACITY,
            own_weight: QUEUE_WEIGHT,
            shared_weight: QUEUE_WEIGHT,
            steal_interval: STEAL_INTERVAL,
            stack_size: STACK_SIZE,
            idle_timeout: IDLE_TIMEOUT,
            timer_interval: TIMER_INTERVAL,
        }
    }

    /// The number of workers: the declared one where one is declared, else
    /// the number of cores.
    pub open spec fn worker_count(declared: Option<usize>, cores: usize) -> usize {
        match declared {
            Some(count) => count,
            None => cores,
        }
    }
}

/// `num_cpus::get`: the number of CPUs that this process can use, which
/// depends on the machine and is at least one.
#[verifier::external_body]
fn available_cores() -> (cores: usize)
    ensures
        cores >= 1,
{
    num_cpus::get()
}

/// The settings for a declared worker count, if any, on a machine with
/// `cores` cores.
pub fn configure_with(declared: Option<usize>, cores: usize) -> (config: RuntimeConfig)
    ensures
        config == RuntimeConfig::with_workers(RuntimeConfig::worker_count(declared, cores)),
{
    let workers = match declared {
        Some(count) => count,
        None => cores,
    };
    RuntimeConfig {
        workers,
        queue_capacity: QUEUE_CAPACITY,
        own_weight: QUEUE_WEIGHT,
        shared_weight: QUEUE_WEIGHT,
        steal_interval: STEAL_INTERVAL,
        stack_size: STACK_SIZE,
        idle_timeout: IDLE_TIMEOUT,
        timer_interval: TIMER_INTERVAL,
    }
}

/// The settings for a declared worker count, if any, on this machine: as many
/// workers as declared, else one for each core that the machine reports.
pub fn configure(declared: Option<usize>) -> (config: RuntimeConfig)
    ensures
        config == RuntimeConfig::with_workers(config.workers),
        declared matches Some(count) ==> config.workers == count,
        declared is None ==> config.workers >= 1,
{
    match declared {
        Some(_) => configure_with(declared, 0),
        None => configure_with(declared, available_cores()),
    }
}

} // verus!
