//! Request and response shapes of the HTTP API and the logic they share.

pub mod keyset;

pub mod downloads;
pub mod convert;
pub mod integrations;
pub mod library;
pub mod qobuz;
pub mod torrent;
pub mod settings;
