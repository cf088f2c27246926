//! Client-side model of the Onionoo relay directory: the relay record, the
//! JSON shape the directory endpoint serves, a checked decoder from that
//! shape into records, and the entry/exit filters over a decoded directory.

pub mod error;
pub mod json;
pub mod relay;
pub mod decode;
