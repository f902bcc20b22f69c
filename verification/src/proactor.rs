//! The facade over one backend instance.

use crate::config::NucleiConfig;
use std::time::Duration;
use vstd::prelude::*;

verus! {

/// What the kernel granted when the backend's ring was set up.
#[derive(Clone, Copy, Debug, PartialEq, Eq)]
pub struct RingParameters {
    /// Entries of the submission queue: the queue's capacity.
    pub sq_entries: u32,
    /// Entries of the completion queue.
    pub cq_entries: u32,
}

/// The kernel mechanisms a backend can sit on.
#[derive(Clone, Copy, Debug, PartialEq, Eq)]
pub enum IoBackend {
    /// Readiness notification through epoll.
    Epoll,
    /// Readiness notification through kqueue.
    Kqueue,
    /// Completion notification through io_uring.
    IoUring,
}

/// The mechanism under every proactor of this crate.
pub const BACKEND: IoBackend = IoBackend::IoUring;

/// What the host is to ask of the backend instance.
#[derive(Clone, Copy, Debug, PartialEq, Eq)]
pub enum Request {
    /// Unblock whoever is parked in a wait.
    Wake,
    /// Park until an event arrives, `max_events` are collected, the timeout
    /// runs out or a wake comes, whichever is first. Without a timeout the
    /// wait has no limit.
    Wait { max_events: usize, timeout: Option<Duration> },
}

/// One backend instance as the rest of the runtime sees it: the
/// configuration it was built from and the ring the kernel granted for it.
/// Both are fixed when the proactor is made.
#[derive(Debug)]
pub struct Proactor {
    config: NucleiConfig,
    params: RingParameters,
}

impl Proactor {
    /// The configuration the backend was built from.
    pub closed spec fn spec_config(&self) -> NucleiConfig {
        self.config
    }

    /// The parameters of the backend's ring.
    pub closed spec fn spec_ring_params(&self) -> &RingParameters {
        &self.params
    }

    /// The proactor of a backend built from `config`, for which the kernel
    /// granted `params`.
    pub fn new(config: NucleiConfig, params: RingParameters) -> (proactor: Self)
        ensures
            proactor.spec_config() == config,
            *proactor.spec_ring_params() == params,
    {
        Proactor { config, params }
    }

    /// The configuration the backend was built from.
    #[verifier::when_used_as_spec(spec_config)]
    pub fn config(&self) -> (config: NucleiConfig)
        ensures
            config == self.spec_config(),
    {
        self.config
    }

    /// The parameters of the backend's ring.
    #[verifier::when_used_as_spec(spec_ring_params)]
    pub fn ring_params(&self) -> (params: &RingParameters)
        ensures
            params == self.spec_ring_params(),
    {
        &self.params
    }

    /// The kernel mechanism in use.
    pub fn backend() -> (kind: IoBackend)
        ensures
            kind == IoBackend::IoUring,
    {
        BACKEND
    }

    /// The request that wakes the thread parked in this proactor's wait.
    pub fn wake(&self) -> (request: Request)
        ensures
            request == Request::Wake,
    {
        Request::Wake
    }

    /// The request that waits on this proactor for at most `max_event_size`
    /// events and at most `duration`.
    pub fn wait(&self, max_event_size: usize, duration: Option<Duration>) -> (request: Request)
        ensures
            request == (Request::Wait { max_events: max_event_size, timeout: duration }),
    {
        Request::Wait { max_events: max_event_size, timeout: duration }
    }
}

} // verus!
