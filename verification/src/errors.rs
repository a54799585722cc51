//! The error taxonomy of the store.
//!
//! Every fallible step of loading or saving maps to exactly one variant.
//! Variants carry the offending path and the underlying cause as plain
//! strings; the unverified rim may dress them up for display.

use vstd::prelude::*;

verus! {

/// Everything that can go wrong while loading or saving a configuration.
///
/// Where a variant carries two strings, the first is the path involved and
/// the second is the text of the underlying failure.
#[derive(Debug)]
pub enum ConfigError {
    /// `ILO_CONFIG_HOME` is not set and the user's home directory could not
    /// be determined.
    NoHome,
    /// The existence of the config root directory could not be checked.
    ConfigRootLoadError(String, String),
    /// The config root directory does not exist and could not be created.
    ConfigRootCreateError(String, String),
    /// The config file exists but could not be opened for reading.
    ConfigFileLoadError(String, String),
    /// The config file's contents could not be decoded as a value of the
    /// expected type.
    ConfigFileParseError(String, String),
    /// The config file location could not be opened for writing. A failed
    /// existence check on the file surfaces here too, rather than as a
    /// variant of its own.
    ConfigFileWriteError(String, String),
    /// The in-memory value could not be serialized.
    ConfigFileSerializeError(String),
}

} // verus!
