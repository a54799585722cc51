//! Path resolution: from the environment to the root directory and the
//! per-key file path.
//!
//! The root is the `ILO_CONFIG_HOME` override when it is set and non-empty,
//! and `<home>/.config/ilo` otherwise. A key `k` maps to the file
//! `<root>/k.json`. Resolution is pure composition: nothing here touches the
//! filesystem, and nothing is cached, so a change to the environment between
//! calls is honored.

use vstd::prelude::*;
use vstd::string::StringExecFns;

use crate::environment::IloConfigEnvironment;
use crate::errors::ConfigError;

verus! {

/// The view of an optional string: the characters, if the string is there.
pub open spec fn opt_chars(s: Option<String>) -> Option<Seq<char>> {
    match s {
        Some(s) => Some(s@),
        None => None,
    }
}

/// Whether the `ILO_CONFIG_HOME` override is set and non-empty, which is
/// what it takes for it to be used verbatim as the root.
pub open spec fn has_override(config_home: Option<Seq<char>>) -> bool {
    config_home matches Some(s) && s.len() > 0
}

/// The root directory used when no override applies: `.config/ilo` under
/// the home directory, or nothing when no home directory is known.
pub open spec fn spec_default_root(user_home: Option<Seq<char>>) -> Option<Seq<char>> {
    match user_home {
        Some(h) => Some(h + "/.config/ilo"@),
        None => None,
    }
}

/// The root directory that a given override and home directory resolve to:
/// the override verbatim when it is set and non-empty, else the default
/// root under the home directory, else nothing.
pub open spec fn spec_config_root(
    config_home: Option<Seq<char>>,
    user_home: Option<Seq<char>>,
) -> Option<Seq<char>> {
    if has_override(config_home) {
        Some(config_home->Some_0)
    } else {
        spec_default_root(user_home)
    }
}

/// The file path that a root and a key compose to: `<root>/<key>.json`.
pub open spec fn spec_config_path(root: Seq<char>, key: Seq<char>) -> Seq<char> {
    root + "/"@ + key + ".json"@
}

/// Resolve the config root from plain values: the `ILO_CONFIG_HOME`
/// override, if any, and the user's home directory, if any.
///
/// Returns `NoHome` exactly when neither an override nor a home directory
/// is available.
pub fn config_root_from(
    config_home: &Option<String>,
    user_home: &Option<String>,
) -> (r: Result<String, ConfigError>)
    ensures
        match r {
            Ok(root) => spec_config_root(opt_chars(*config_home), opt_chars(*user_home))
                == Some(root@),
            Err(e) => spec_config_root(opt_chars(*config_home), opt_chars(*user_home)) is None
                && e is NoHome,
        },
{
    match config_home {
        Some(s) if !s.as_str().is_empty() => Ok(s.clone()),
        _ => match user_home {
            Some(h) => {
                let mut root = h.clone();
                root.append("/.config/ilo");
                Ok(root)
            },
            None => Err(ConfigError::NoHome),
        },
    }
}

/// Relies on `home::home_dir`: the current user's home directory, read from
/// the `HOME` environment variable or the user database, converted to a
/// plain string. The result depends on the process environment, so nothing
/// is promised of it; callers handle every outcome.
#[verifier::external_body]
fn home_dir_string() -> (r: Option<String>) {
    home::home_dir().and_then(|p| p.to_str().map(|s| s.to_string()))
}

/// Resolve the config root directory for the given environment.
///
/// When the override is set and non-empty it is used verbatim. Otherwise
/// the root lies under the user's home directory, which is looked up fresh
/// on every call; `NoHome` is returned when that lookup finds nothing.
pub fn get_config_root(env: &IloConfigEnvironment) -> (r: Result<String, ConfigError>)
    ensures
        has_override(opt_chars(env.ilo_config_home)) ==> (r matches Ok(root) && root@
            == opt_chars(env.ilo_config_home)->Some_0),
        r matches Err(e) ==> e is NoHome && !has_override(opt_chars(env.ilo_config_home)),
        !has_override(opt_chars(env.ilo_config_home)) ==> match r {
            Ok(root) => exists|h: Seq<char>| root@ == h + "/.config/ilo"@,
            Err(e) => e is NoHome,
        },
{
    let user_home = home_dir_string();
    config_root_from(&env.ilo_config_home, &user_home)
}

/// Compose the config file path `<root>/<key>.json` for a key.
///
/// Pure composition: no normalization and no existence check.
pub fn get_config_path(root: &str, config_file_key: &str) -> (p: String)
    ensures
        p@ == spec_config_path(root@, config_file_key@),
{
    let mut p = root.to_owned();
    p.append("/");
    p.append(config_file_key);
    p.append(".json");
    p
}

} // verus!
