//! The core of a proactor: the process-wide driver of an asynchronous I/O
//! runtime, written so that it performs no I/O itself.
//!
//! The crate decides and the host acts. The host owns the kernel queue, the
//! worker thread and the computation being driven; this crate owns the rules:
//! which proactor is the installed one, what is asked of the backend, and in
//! which order a computation is polled, woken and finished.
//!
//! - [`cell`]: the write-once cell that the registry rests on.
//! - [`config`]: what a backend is built from.
//! - [`proactor`]: the facade over one backend instance.
//! - [`registry`]: the slot of the installed proactor; first writer wins.
//! - [`signal`]: the wake signal of a drive.
//! - [`drive`]: the session that drives one computation to completion.

pub mod cell;
pub mod config;
pub mod drive;
pub mod proactor;
pub mod registry;
pub mod signal;

pub use crate::config::{IoUringConfiguration, NucleiConfig};
pub use crate::drive::{drive, worker_request, Directive, DriveSession, Event, Progress};
pub use crate::proactor::{IoBackend, Proactor, Request, RingParameters};
pub use crate::registry::{Access, Installation, Registry};
pub use crate::signal::WakeSignal;
