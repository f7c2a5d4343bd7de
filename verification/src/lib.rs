//! The decision core of the Navigator sandbox supervisor.
//!
//! The supervisor runs a command in a sandbox. This crate decides which
//! operation of a run comes next and with which arguments; performing the
//! operations is left to whoever drives it.

pub mod error;
pub mod filesystem;
pub mod laws;
pub mod load;
pub mod managed;
pub mod model;
pub mod network;
pub mod policy;
pub mod reaper;
pub mod supervisor;
pub mod text;

pub use managed::{is_managed_child, register_managed_child, unregister_managed_child};
pub use supervisor::run_sandbox;
