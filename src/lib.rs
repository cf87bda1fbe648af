//! Layout, state machines and error rules for synchronization primitives
//! that live inside memory shared between cooperating processes.
//!
//! The operating-system objects themselves (process-shared pthread objects,
//! named kernel objects, atomics in the shared bytes) are driven by the
//! surrounding program; this crate decides where they go in the shared
//! bytes, how the results of native calls are reported, how events move
//! between their states, and what a waiter does next.

pub mod error;
pub mod events;
pub mod layout;
pub mod naming;
pub mod time;

pub use error::{Error, OsCall, Timeout};
pub use events::{EventBits, EventState, Probe, Wake, WaitStep, WakeAction};
