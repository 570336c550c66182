//! Tag-source integrations: the catalog of providers, what a lookup is
//! asked and answered, and how a loaded release is applied to an album.

pub mod types;
pub mod apply;
pub mod catalog;
pub mod discogs;
pub mod gnudb;
pub mod musicbrainz;
pub mod provider;
pub mod registry;
pub mod tracktype;
