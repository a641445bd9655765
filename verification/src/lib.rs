//! Connection-lifecycle manager for a single embedded database handle.
//!
//! The library keeps the lifecycle state of one optional connection handle
//! and proves that the three operations around it — establish a connection,
//! tear it down, report health — are idempotent, never leak a handle, and
//! always leave the state inspectable. The embedded engine itself, the
//! asynchronous runtime and the host shell live outside the library and talk
//! to it through plain values.

pub mod commands;
pub mod errors;
pub mod guard;
pub mod memory;
pub mod ports;
pub mod service;
