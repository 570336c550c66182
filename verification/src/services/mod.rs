//! Persisted application settings and the state of the library storage
//! watcher, as far as the settings endpoints read them.

pub mod app_settings;
pub mod storage_watch;
