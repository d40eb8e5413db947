//! Verified core of a thin client for a distributed object store.
//!
//! The store itself is a native library reached through four foreign entry
//! points (initialize an instance, create an object, read a range, write a
//! range). Everything this crate can decide without crossing that boundary is
//! decided here, with contracts: how the status codes those calls report are
//! surfaced to callers, how buffers are owned on the way in and out, and how
//! the generated foreign-declaration artifact is patched and rendered.
//! The foreign calls themselves live outside this crate.

pub mod client;
pub mod generator;
