//! Request-encoding layer of a CQL wire-protocol client.
//!
//! The library turns typed request values into the exact byte sequences a
//! binary protocol frame body must contain: opcode tagging, length-prefixed
//! byte encoding, and composition with the separately serialized query
//! parameters. Frame envelope assembly and transmission are left to callers.

pub mod execute;
pub mod options;
pub mod query;
pub mod request;
pub mod shared_bytes;
pub mod types;
