//! A watch-session lifecycle manager.
//!
//! The crate keeps at most one recursive filesystem observation alive at a
//! time. A session owns the single observation slot: replacing the watched
//! root first stops the old observation, and only then starts the new one,
//! so observations never overlap. Native change notifications are shaped
//! into [`event::ChangeEvent`] values and serialized into payloads for a
//! consumer's event sink.

use vstd::prelude::*;

pub mod event;
pub mod hostcheck;
pub mod native;
pub mod observer;
pub mod payload;
pub mod session;
pub mod text;

verus! {

/// Why a root could not be put under observation.
#[derive(Debug, PartialEq)]
pub enum WatchError {
    /// The caller-supplied root is empty or whitespace-only. Such a root is
    /// rejected synchronously, before any native work, with no side effects.
    InvalidPath,
    /// The native watch subsystem could not be created.
    InitFailed { detail: String },
    /// The root does not exist or cannot be monitored.
    PathUnwatchable { detail: String },
}

} // verus!
