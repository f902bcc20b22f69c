//! Tuning values for the backend. They are handed over when a backend is
//! built and never change afterwards.

use vstd::prelude::*;

verus! {

/// Queue length of a backend built from the default configuration.
pub const DEFAULT_QUEUE_LEN: u32 = 2048;

/// Tuning of a completion-queue backend.
#[derive(Clone, Copy, Debug, PartialEq, Eq)]
pub struct IoUringConfiguration {
    /// Entries asked for in the submission queue. The kernel may grant more.
    pub queue_len: u32,
    /// Idle time, in milliseconds, after which the kernel's submission
    /// poller goes to sleep. `None` leaves submission polling off.
    pub sqpoll_wake_interval: Option<u32>,
    /// Limit on bounded worker threads per NUMA node. `None` keeps the
    /// kernel's own limit.
    pub per_numa_bounded_worker_count: Option<u32>,
    /// Limit on unbounded worker threads per NUMA node. `None` keeps the
    /// kernel's own limit.
    pub per_numa_unbounded_worker_count: Option<u32>,
}

impl IoUringConfiguration {
    /// The configuration that `default()` returns.
    pub open spec fn spec_default() -> Self {
        IoUringConfiguration {
            queue_len: DEFAULT_QUEUE_LEN,
            sqpoll_wake_interval: None,
            per_numa_bounded_worker_count: None,
            per_numa_unbounded_worker_count: None,
        }
    }
}

impl Default for IoUringConfiguration {
    fn default() -> (config: Self)
        ensures
            config == Self::spec_default(),
    {
        IoUringConfiguration {
            queue_len: DEFAULT_QUEUE_LEN,
            sqpoll_wake_interval: None,
            per_numa_bounded_worker_count: None,
            per_numa_unbounded_worker_count: None,
        }
    }
}

/// Everything a backend is built from.
#[derive(Clone, Copy, Debug, PartialEq, Eq)]
pub struct NucleiConfig {
    /// Tuning of the completion-queue backend.
    pub iouring: IoUringConfiguration,
}

impl NucleiConfig {
    /// The configuration that `default()` returns.
    pub open spec fn spec_default() -> Self {
        NucleiConfig { iouring: IoUringConfiguration::spec_default() }
    }
}

impl Default for NucleiConfig {
    fn default() -> (config: Self)
        ensures
            config == Self::spec_default(),
    {
        NucleiConfig { iouring: IoUringConfiguration::default() }
    }
}

} // verus!
