//! The environment-derived settings that steer path resolution.
//!
//! Users may set the `ILO_CONFIG_HOME` environment variable to customize
//! where their configuration files are stored. The variable is read by the
//! unverified rim of an application and handed in here as a plain value, so
//! that everything downstream of the lookup is verified.

use vstd::prelude::*;

verus! {

/// The environment variables this library cares about, as a typed struct.
///
/// `ilo_config_home` is `Some(s)` when `ILO_CONFIG_HOME` was set to `s`,
/// and `None` when it was absent.
#[derive(Debug)]
pub struct IloConfigEnvironment {
    pub ilo_config_home: Option<String>,
}

} // verus!
