//! Euterpe music server: the verified core of its library layout, path, tag,
//! pagination and settings logic.

pub mod text;
pub mod fspath;
pub mod codec;
pub mod order;
pub mod library;
pub mod error;
pub mod api;
pub mod config;
pub mod crypto;
pub mod credentials;
pub mod middleware;
pub mod db;
pub mod integrations;
pub mod services;
pub mod smb;
pub mod routes;
