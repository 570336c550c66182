//! The decisions behind the HTTP routes, apart from the I/O they wrap.

pub mod downloads;
pub mod favorites;
pub mod integrations;
pub mod library;
pub mod qobuz;
pub mod settings_ext;
pub mod torrent;
