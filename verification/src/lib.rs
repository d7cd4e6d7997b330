//! Synchronization primitives for a cooperative task scheduler.
//!
//! Two independent types share one design: a small piece of state plus a
//! broadcast-wait event from the `event_listener` crate.
//!
//! - [`Exit`] holds at most one pending process exit code and lets any number
//!   of tasks wait for it to be set.
//! - [`ThreadResultMap`] tracks task identifiers, publishes each task's
//!   terminal result, and lets any number of tasks wait for a specific task
//!   to finish.
//!
//! Neither type suspends by itself: the operations that wait hand back an
//! `event_listener::EventListener` for the caller to await (or block on), so
//! the verified code stays free of async plumbing.

mod events;
pub mod exit;
pub mod result_map;

pub use exit::Exit;
pub use result_map::{RegistryError, RegistryView, ThreadResultMap};
