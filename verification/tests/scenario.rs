//! End-to-end scenarios: the tests drive the save protocol against a real
//! temporary directory, the way an application would.

use std::path::Path;

use ilo_config::data::ConfigData;
use ilo_config::environment::IloConfigEnvironment;
use ilo_config::errors::ConfigError;
use ilo_config::paths::{get_config_path, get_config_root};
use ilo_config::protocol::{FsReply, FsRequest, SaveTask};
use ilo_config::store::{Config, ReadOutcome};
use ilo_config::widget::WidgetConfig;

fn env_with_root(root: &Path) -> IloConfigEnvironment {
    IloConfigEnvironment { ilo_config_home: Some(root.to_str().unwrap().to_string()) }
}

/// Perform one requested piece of filesystem work, as an application would.
fn perform(request: FsRequest) -> FsReply {
    match request {
        FsRequest::CheckDir(p) | FsRequest::CheckFile(p) => match Path::new(&p).try_exists() {
            Ok(found) => FsReply::Found(found),
            Err(e) => FsReply::Failed(e.to_string()),
        },
        FsRequest::CreateDirAll(p) => match fs_err::create_dir_all(&p) {
            Ok(()) => FsReply::Done,
            Err(e) => FsReply::Failed(e.to_string()),
        },
        FsRequest::WriteNewOwnerOnly(p, contents) => {
            let flags = rustix::fs::OFlags::CREATE | rustix::fs::OFlags::WRONLY
                | rustix::fs::OFlags::TRUNC;
            let mode = rustix::fs::Mode::from_raw_mode(0o600);
            match rustix::fs::open(&p, flags, mode) {
                Ok(fd) => {
                    let mut bytes = contents.as_bytes();
                    while !bytes.is_empty() {
                        match rustix::io::write(&fd, bytes) {
                            Ok(n) => bytes = &bytes[n..],
                            Err(e) => return FsReply::Failed(e.to_string()),
                        }
                    }
                    FsReply::Done
                },
                Err(e) => FsReply::Failed(e.to_string()),
            }
        },
        FsRequest::Overwrite(p, contents) => match fs_err::write(&p, contents.as_bytes()) {
            Ok(()) => FsReply::Done,
            Err(e) => FsReply::Failed(e.to_string()),
        },
    }
}

/// Drive a save task to completion against the real filesystem.
fn drive(task: &mut SaveTask) -> Result<(), ConfigError> {
    while let Some(request) = task.request() {
        let reply = perform(request);
        task.advance(reply)?;
    }
    Ok(())
}

/// Load a key the way an application would: resolve the path, probe the
/// file, and let the store decide.
fn load_widget(env: &IloConfigEnvironment, key: &str) -> Result<Config<WidgetConfig>, ConfigError> {
    let root = get_config_root(env)?;
    let path = get_config_path(&root, key);
    let outcome = if Path::new(&path).is_file() {
        match fs_err::read(&path) {
            Ok(bytes) => match String::from_utf8(bytes) {
                Ok(text) => ReadOutcome::Text(text),
                Err(e) => ReadOutcome::NotText(e.to_string()),
            },
            Err(e) => ReadOutcome::OpenFailed(e.to_string()),
        }
    } else {
        ReadOutcome::Missing
    };
    Config::load(key, &path, outcome)
}

fn mode_bits(path: &Path) -> u32 {
    rustix::fs::stat(path).unwrap().st_mode & 0o7777
}

#[test]
fn load_of_a_missing_key_creates_nothing() {
    let tmp = tempfile::tempdir().unwrap();
    let root = tmp.path().join("cfg");
    let env = env_with_root(&root);

    let c = load_widget(&env, "widget").unwrap();
    assert_eq!(*c.data(), WidgetConfig { enabled: false });
    assert!(!root.exists(), "load must not create the root directory");
    assert!(!root.join("widget.json").exists(), "load must not create the file");
}

#[test]
fn end_to_end_save_persists_the_mutated_value() {
    let tmp = tempfile::tempdir().unwrap();
    let root = tmp.path().join("cfg");
    let env = env_with_root(&root);

    let mut c = load_widget(&env, "widget").unwrap();
    assert_eq!(*c.data(), WidgetConfig { enabled: false });

    c.data_mut().enabled = true;
    let mut task = c.save(&env).unwrap();
    drive(&mut task).unwrap();

    let on_disk = fs_err::read_to_string(root.join("widget.json")).unwrap();
    assert_eq!(on_disk, "{\n  \"enabled\": true\n}");

    let again = load_widget(&env, "widget").unwrap();
    assert_eq!(*again.data(), WidgetConfig { enabled: true });
}

#[test]
fn saving_twice_writes_identical_bytes() {
    let tmp = tempfile::tempdir().unwrap();
    let env = env_with_root(&tmp.path().join("cfg"));

    let c = load_widget(&env, "widget").unwrap();
    let mut first_task = c.save(&env).unwrap();
    drive(&mut first_task).unwrap();
    let first = fs_err::read(tmp.path().join("cfg/widget.json")).unwrap();

    let mut second_task = c.save(&env).unwrap();
    drive(&mut second_task).unwrap();
    let second = fs_err::read(tmp.path().join("cfg/widget.json")).unwrap();

    assert_eq!(first, second);
}

#[test]
fn fresh_file_is_owner_only_and_later_saves_leave_the_bits_alone() {
    let tmp = tempfile::tempdir().unwrap();
    let root = tmp.path().join("cfg");
    let env = env_with_root(&root);
    let file = root.join("widget.json");

    let c = load_widget(&env, "widget").unwrap();
    let mut task = c.save(&env).unwrap();
    drive(&mut task).unwrap();
    assert_eq!(mode_bits(&file), 0o600, "a freshly created file is owner-only");

    rustix::fs::chmod(&file, rustix::fs::Mode::from_raw_mode(0o644)).unwrap();
    let mut again = c.save(&env).unwrap();
    drive(&mut again).unwrap();
    assert_eq!(mode_bits(&file), 0o644, "saving over an existing file keeps its bits");
}

#[test]
fn save_creates_the_root_with_missing_ancestors() {
    let tmp = tempfile::tempdir().unwrap();
    let root = tmp.path().join("a").join("b").join("c");
    let env = env_with_root(&root);

    let c = load_widget(&env, "widget").unwrap();
    assert!(!root.exists());
    let mut task = c.save(&env).unwrap();
    drive(&mut task).unwrap();
    assert!(root.is_dir(), "save creates the root directory and its ancestors");
    assert!(root.join("widget.json").is_file());
}

#[test]
fn invalid_json_on_disk_is_a_parse_error_naming_the_path() {
    let tmp = tempfile::tempdir().unwrap();
    let root = tmp.path().join("cfg");
    let env = env_with_root(&root);

    fs_err::create_dir_all(&root).unwrap();
    let file = root.join("widget.json");
    fs_err::write(&file, b"} not json {").unwrap();

    match load_widget(&env, "widget") {
        Err(ConfigError::ConfigFileParseError(path, _)) => {
            assert_eq!(path, file.to_str().unwrap());
        },
        other => panic!("expected a parse error, got {:?}", other),
    }
}

#[test]
fn reload_honors_a_changed_override() {
    let tmp = tempfile::tempdir().unwrap();
    let first_root = tmp.path().join("one");
    let second_root = tmp.path().join("two");

    let c = load_widget(&env_with_root(&first_root), "widget").unwrap();
    let mut task = c.save(&env_with_root(&first_root)).unwrap();
    drive(&mut task).unwrap();
    assert!(first_root.join("widget.json").is_file());

    // Resolution is fresh on every call: a new override lands elsewhere.
    let mut moved = c.save(&env_with_root(&second_root)).unwrap();
    drive(&mut moved).unwrap();
    assert!(second_root.join("widget.json").is_file());
}

#[test]
fn round_trip_survives_the_compact_spelling() {
    let tmp = tempfile::tempdir().unwrap();
    let root = tmp.path().join("cfg");
    let env = env_with_root(&root);

    fs_err::create_dir_all(&root).unwrap();
    fs_err::write(root.join("widget.json"), b"{\"enabled\":true}").unwrap();

    let c = load_widget(&env, "widget").unwrap();
    assert_eq!(*c.data(), WidgetConfig { enabled: true });

    // Saving normalizes to the canonical pretty form.
    let mut task = c.save(&env).unwrap();
    drive(&mut task).unwrap();
    let on_disk = fs_err::read_to_string(root.join("widget.json")).unwrap();
    assert_eq!(on_disk, c.data().encode_json().unwrap());
}
