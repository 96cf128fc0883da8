//! The decision logic of a system management daemon: a supervisor for
//! background services, an arbiter for one power limit with reference-counted
//! leases, a write-coalescing queue, and the parsers and encoders of the
//! hardware attributes they touch.
//!
//! Nothing here reads or writes a file, waits, or talks to the bus. Callers
//! do that, and this crate decides what they do next.

pub mod attribute;
pub mod audio;
pub mod context;
pub mod daemon;
pub mod error;
pub mod gpu;
pub mod hardware;
pub mod json;
pub mod lease;
pub mod manager;
pub mod platform;
pub mod power;
pub mod screenreader;
pub mod session;
pub mod session_management;
pub mod sysfs_writer;
pub mod tdp_limit;
pub mod tdp_manager;
pub mod tdp_model;
pub mod text;
pub mod uinput;
