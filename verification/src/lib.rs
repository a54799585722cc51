//! A strongly-typed, file-backed configuration store.
//!
//! Configuration data lives in one JSON file per key under a root directory.
//! The root is taken from the `ILO_CONFIG_HOME` override when it is set and
//! non-empty, and falls back to `<home>/.config/ilo` otherwise.
//!
//! This crate holds the verified core: path resolution, the load decision,
//! and the save protocol. The filesystem itself is driven by the caller, who
//! performs each requested step and reports its outcome back.

pub mod data;
pub mod environment;
pub mod errors;
pub mod paths;
pub mod protocol;
pub mod store;
pub mod widget;
