//! The store itself: a typed configuration value bound to a key.
//!
//! A [`Config`] pairs one in-memory value with the key naming its file.
//! Loading is a pure decision over what the caller found on disk: a
//! missing file yields the default value (and nothing is created), a
//! readable file is decoded, and each failure maps to its error. Saving
//! hands back a [`SaveTask`] that the caller drives; the task's contents
//! are exactly the canonical encoding of the value at that moment.

use vstd::prelude::*;

use crate::data::ConfigData;
use crate::environment::IloConfigEnvironment;
use crate::errors::ConfigError;
use crate::paths::{get_config_path, get_config_root, has_override, opt_chars, spec_config_path};
use crate::protocol::{SavePhase, SaveTask};

verus! {

/// What the caller found when it went to read the config file.
#[derive(Debug)]
pub enum ReadOutcome {
    /// The path does not exist as a regular file.
    Missing,
    /// The file was read in full; here is its text.
    Text(String),
    /// The file exists but could not be opened for reading; the string is
    /// the text of the failure.
    OpenFailed(String),
    /// The file was opened but its bytes are not text; the string is the
    /// text of the failure.
    NotText(String),
}

/// One typed configuration value, bound to the key naming its file.
#[derive(Debug)]
pub struct Config<T: ConfigData> {
    config_data: T,
    config_file_key: String,
}

impl<T: ConfigData> Config<T> {
    /// The in-memory value.
    pub closed spec fn spec_data(&self) -> T {
        self.config_data
    }

    /// The key, as characters.
    pub closed spec fn spec_key(&self) -> Seq<char> {
        self.config_file_key@
    }

    /// Build the configuration for a key from what the caller found at the
    /// file's path.
    ///
    /// A missing file yields the default value; nothing is created, and no
    /// filesystem work is requested, so loading has no side effect at all.
    /// Text that decodes yields the decoded value. Text that does not
    /// decode is `ConfigFileParseError`, an unopenable file is
    /// `ConfigFileLoadError`, and unreadable bytes are
    /// `ConfigFileParseError`, each carrying the offending path.
    pub fn load(config_file_key: &str, config_path: &str, file: ReadOutcome) -> (r: Result<
        Config<T>,
        ConfigError,
    >)
        ensures
            match file {
                ReadOutcome::Missing => r matches Ok(c) && c.spec_data() == T::spec_default()
                    && c.spec_key() == config_file_key@,
                ReadOutcome::Text(s) => match T::spec_decode(s@) {
                    Some(v) => r matches Ok(c) && c.spec_data() == v && c.spec_key()
                        == config_file_key@,
                    None => r matches Err(ConfigError::ConfigFileParseError(p, _)) && p@
                        == config_path@,
                },
                ReadOutcome::OpenFailed(e) => r matches Err(ConfigError::ConfigFileLoadError(p, c))
                    && p@ == config_path@ && c == e,
                ReadOutcome::NotText(e) => r matches Err(ConfigError::ConfigFileParseError(p, c))
                    && p@ == config_path@ && c == e,
            },
    {
        match file {
            ReadOutcome::Missing => Ok(
                Config {
                    config_data: T::default_data(),
                    config_file_key: config_file_key.to_owned(),
                },
            ),
            ReadOutcome::Text(s) => match T::decode_json(s.as_str()) {
                Ok(v) => Ok(
                    Config { config_data: v, config_file_key: config_file_key.to_owned() },
                ),
                Err(e) => Err(ConfigError::ConfigFileParseError(config_path.to_owned(), e)),
            },
            ReadOutcome::OpenFailed(e) => Err(
                ConfigError::ConfigFileLoadError(config_path.to_owned(), e),
            ),
            ReadOutcome::NotText(e) => Err(
                ConfigError::ConfigFileParseError(config_path.to_owned(), e),
            ),
        }
    }

    /// Begin saving the in-memory value: resolve the root for the given
    /// environment, encode the value, and hand back the task that drives
    /// the filesystem work.
    ///
    /// On success the task is at its first step, its contents are exactly
    /// the canonical encoding of the value, and its path is
    /// `<root>/<key>.json`; when the override is set and non-empty, its
    /// root is the override verbatim, and beginning the save cannot fail
    /// for an encodable value. The only errors are `NoHome` (no override
    /// and no home directory) and `ConfigFileSerializeError` (the value
    /// would not encode).
    pub fn save(&self, env: &IloConfigEnvironment) -> (r: Result<SaveTask, ConfigError>)
        ensures
            r matches Ok(t) ==> (t.spec_contents() == self.spec_data().spec_encoded()
                && t.spec_path() == spec_config_path(t.spec_root(), self.spec_key())
                && (t.spec_phase() matches SavePhase::RootCheck) && (has_override(
                opt_chars(env.ilo_config_home),
            ) ==> t.spec_root() == opt_chars(env.ilo_config_home)->Some_0)),
            r matches Err(e) ==> match e {
                ConfigError::NoHome => !has_override(opt_chars(env.ilo_config_home)),
                ConfigError::ConfigFileSerializeError(_) => !self.spec_data().spec_encodable(),
                _ => false,
            },
            (has_override(opt_chars(env.ilo_config_home)) && self.spec_data().spec_encodable())
                ==> r is Ok,
            !has_override(opt_chars(env.ilo_config_home)) ==> match r {
                Ok(t) => exists|h: Seq<char>| t.spec_root() == h + "/.config/ilo"@,
                Err(_) => true,
            },
    {
        let root = match get_config_root(env) {
            Ok(root) => root,
            Err(e) => {
                return Err(e);
            },
        };
        let contents = match self.config_data.encode_json() {
            Ok(contents) => contents,
            Err(e) => {
                return Err(ConfigError::ConfigFileSerializeError(e));
            },
        };
        let path = get_config_path(root.as_str(), self.config_file_key.as_str());
        Ok(SaveTask::new(root, path, contents))
    }

    /// A read-only reference to the in-memory value.
    pub fn data(&self) -> (r: &T)
        ensures
            *r == self.spec_data(),
    {
        &self.config_data
    }

    /// An exclusive reference to the in-memory value. Mutations through it
    /// change only the in-memory value; nothing reaches disk until a save.
    pub fn data_mut(&mut self) -> (r: &mut T)
        ensures
            *r == old(self).spec_data(),
            final(self).spec_data() == *final(r),
            final(self).spec_key() == old(self).spec_key(),
    {
        &mut self.config_data
    }
}

} // verus!
