pub mod backend;
pub mod contained;
pub mod covers;
pub mod cue;
pub mod embed;
pub mod file_hash;
pub mod fs;
pub mod local_covers;
pub mod lofty_tags;
pub mod paths;
pub mod qobuz_tags;
pub mod register_download;
pub mod storage;
pub mod stream;
pub mod tag_io;
pub mod tags;
