//! Streaming gzip compression as a sans-I/O sink.

pub mod buffer;
pub mod encoder;
pub mod gz;
pub mod job;
pub mod model;
pub mod sink;
