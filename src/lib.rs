//! Decision core of a versioned dynamic-plugin loader.
//!
//! A plugin is a dynamically loaded module that reports which ABI version it
//! implements and then exports a version-specific table of entry points
//! (construct, destroy, get, set). The loading itself is foreign work; this
//! crate decides, step by step, what is to be done next and proves that the
//! ownership discipline holds: the object is destroyed exactly once and before
//! the module is unloaded, nothing is constructed when a symbol is missing or
//! the version is unknown, and a module loaded during a failed construction is
//! unloaded before the error is reported.

pub mod abi;
pub mod lifecycle;
pub mod trace;

pub use abi::{AbiVersion, Object, PluginError, Symbol};
pub use lifecycle::{Action, Event, Lifecycle, Phase};
