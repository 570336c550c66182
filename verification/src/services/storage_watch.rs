//! The state of the watcher that follows changes in library storage.

use vstd::prelude::*;

verus! {

#[derive(Debug, Clone, Copy, PartialEq, Eq, Structural)]
pub enum StorageWatchState {
    Disabled,
    Connected,
    Degraded,
    Reconnecting,
}

#[derive(Debug, Clone)]
pub struct StorageWatchStatus {
    pub state: StorageWatchState,
    pub degraded_reason: Option<String>,
}

impl StorageWatchStatus {
    /// The status of a watcher that is not running.
    pub fn disabled() -> (r: StorageWatchStatus)
        ensures
            r.state == StorageWatchState::Disabled,
            r.degraded_reason is None,
    {
        StorageWatchStatus { state: StorageWatchState::Disabled, degraded_reason: None }
    }
}

} // verus!
