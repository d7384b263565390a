//! Typed message codecs over a byte-oriented publish/subscribe transport,
//! the zero-copy payload writer, and the service-call outcome rules.

pub mod descriptor;
pub mod envelope;
pub mod format;
pub mod structured;
pub mod protobuf;
pub mod raw;
pub mod zerocopy;
pub mod service;
