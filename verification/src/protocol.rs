//! The save protocol: the decisions of a save, separated from the
//! filesystem work they steer.
//!
//! Saving a configuration touches the filesystem several times: check the
//! root directory, create it if absent, check whether the file exists, and
//! write it. The decisions between those steps live here, verified, as a
//! small state machine. The caller asks the task for its next
//! [`FsRequest`], performs it, and reports an [`FsReply`]; the task decides
//! what comes next, or which [`ConfigError`] to surface.
//!
//! A freshly created file is requested with owner-only permissions
//! ([`FsRequest::WriteNewOwnerOnly`]); an existing file is overwritten in
//! place ([`FsRequest::Overwrite`]), leaving its permission bits alone.

use vstd::prelude::*;

use crate::errors::ConfigError;

verus! {

/// One piece of filesystem work that a save asks its caller to perform.
#[derive(Debug)]
pub enum FsRequest {
    /// Check whether the directory at this path exists.
    CheckDir(String),
    /// Create the directory at this path, missing ancestors included.
    CreateDirAll(String),
    /// Check whether the file at this path exists.
    CheckFile(String),
    /// Create the file at this path with owner-only read/write permission
    /// and write these contents to it.
    WriteNewOwnerOnly(String, String),
    /// Overwrite the existing file at this path with these contents,
    /// leaving its permission bits as they are.
    Overwrite(String, String),
}

/// How one piece of requested filesystem work went.
#[derive(Debug)]
pub enum FsReply {
    /// An existence check came back with this answer.
    Found(bool),
    /// A create or write succeeded.
    Done,
    /// The work failed; the string is the text of the underlying error.
    Failed(String),
}

/// Where in the save protocol a task stands.
#[derive(Clone, Copy, Debug)]
pub enum SavePhase {
    /// About to check that the root directory exists.
    RootCheck,
    /// The root directory was missing; about to create it.
    RootCreate,
    /// About to check whether the config file exists.
    FileCheck,
    /// About to write the file; the flag says whether it is being newly
    /// created (and so gets owner-only permissions).
    FileWrite(bool),
    /// The save is over, successfully or not.
    Finished,
}

/// Whether a reply has the shape that the phase's request calls for:
/// existence checks come back as `Found` or `Failed`, creates and writes
/// as `Done` or `Failed`. A finished task expects no reply at all.
pub open spec fn expects(phase: SavePhase, reply: FsReply) -> bool {
    match phase {
        SavePhase::RootCheck => !(reply matches FsReply::Done),
        SavePhase::RootCreate => !(reply matches FsReply::Found(_)),
        SavePhase::FileCheck => !(reply matches FsReply::Done),
        SavePhase::FileWrite(_) => !(reply matches FsReply::Found(_)),
        SavePhase::Finished => false,
    }
}

/// One save in progress: the root directory, the file path, the exact
/// contents to write, and where in the protocol the save stands.
#[derive(Debug)]
pub struct SaveTask {
    root: String,
    path: String,
    contents: String,
    phase: SavePhase,
}

impl SaveTask {
    /// The root directory this save ensures exists.
    pub closed spec fn spec_root(&self) -> Seq<char> {
        self.root@
    }

    /// The file path this save writes to.
    pub closed spec fn spec_path(&self) -> Seq<char> {
        self.path@
    }

    /// The exact contents this save writes.
    pub closed spec fn spec_contents(&self) -> Seq<char> {
        self.contents@
    }

    /// Where in the protocol this save stands.
    pub closed spec fn spec_phase(&self) -> SavePhase {
        self.phase
    }

    /// Begin a save of `contents` to the file at `path` under the root
    /// directory `root`.
    pub fn new(root: String, path: String, contents: String) -> (t: SaveTask)
        ensures
            t.spec_root() == root@,
            t.spec_path() == path@,
            t.spec_contents() == contents@,
            t.spec_phase() == SavePhase::RootCheck,
    {
        SaveTask { root, path, contents, phase: SavePhase::RootCheck }
    }

    /// The filesystem work the caller should perform next, or `None` once
    /// the save is over. Asking does not advance the task; the caller
    /// reports the outcome through [`SaveTask::advance`].
    pub fn request(&self) -> (r: Option<FsRequest>)
        ensures
            match self.spec_phase() {
                SavePhase::RootCheck => r matches Some(FsRequest::CheckDir(p)) && p@
                    == self.spec_root(),
                SavePhase::RootCreate => r matches Some(FsRequest::CreateDirAll(p)) && p@
                    == self.spec_root(),
                SavePhase::FileCheck => r matches Some(FsRequest::CheckFile(p)) && p@
                    == self.spec_path(),
                SavePhase::FileWrite(fresh) => if fresh {
                    r matches Some(FsRequest::WriteNewOwnerOnly(p, c)) && p@ == self.spec_path()
                        && c@ == self.spec_contents()
                } else {
                    r matches Some(FsRequest::Overwrite(p, c)) && p@ == self.spec_path() && c@
                        == self.spec_contents()
                },
                SavePhase::Finished => r is None,
            },
    {
        match self.phase {
            SavePhase::RootCheck => Some(FsRequest::CheckDir(self.root.clone())),
            SavePhase::RootCreate => Some(FsRequest::CreateDirAll(self.root.clone())),
            SavePhase::FileCheck => Some(FsRequest::CheckFile(self.path.clone())),
            SavePhase::FileWrite(fresh) => if fresh {
                Some(FsRequest::WriteNewOwnerOnly(self.path.clone(), self.contents.clone()))
            } else {
                Some(FsRequest::Overwrite(self.path.clone(), self.contents.clone()))
            },
            SavePhase::Finished => None,
        }
    }

    /// Report how the requested filesystem work went, and move the save
    /// along.
    ///
    /// `Ok(true)` means the file was written and the save is over;
    /// `Ok(false)` means more work is requested. A failure ends the save
    /// with the error that the failing step maps to: a failed root
    /// existence check is `ConfigRootLoadError`, a failed root creation is
    /// `ConfigRootCreateError`, and a failed file existence check or write
    /// is `ConfigFileWriteError`, each carrying the offending path and the
    /// cause. A missing root directory is created before the file is
    /// touched, and the file is created fresh (with owner-only permission)
    /// exactly when the existence check found no file.
    pub fn advance(&mut self, reply: FsReply) -> (r: Result<bool, ConfigError>)
        requires
            expects(old(self).spec_phase(), reply),
        ensures
            final(self).spec_root() == old(self).spec_root(),
            final(self).spec_path() == old(self).spec_path(),
            final(self).spec_contents() == old(self).spec_contents(),
            old(self).spec_phase() matches SavePhase::RootCheck ==> match reply {
                FsReply::Found(true) => r == Ok::<bool, ConfigError>(false)
                    && final(self).spec_phase() matches SavePhase::FileCheck,
                FsReply::Found(false) => r == Ok::<bool, ConfigError>(false)
                    && final(self).spec_phase() matches SavePhase::RootCreate,
                _ => (reply matches FsReply::Failed(e)
                    && (r matches Err(ConfigError::ConfigRootLoadError(p, c))
                    && p@ == old(self).spec_root() && c == e))
                    && final(self).spec_phase() matches SavePhase::Finished,
            },
            old(self).spec_phase() matches SavePhase::RootCreate ==> match reply {
                FsReply::Done => r == Ok::<bool, ConfigError>(false)
                    && final(self).spec_phase() matches SavePhase::FileCheck,
                _ => (reply matches FsReply::Failed(e)
                    && (r matches Err(ConfigError::ConfigRootCreateError(p, c))
                    && p@ == old(self).spec_root() && c == e))
                    && final(self).spec_phase() matches SavePhase::Finished,
            },
            old(self).spec_phase() matches SavePhase::FileCheck ==> match reply {
                FsReply::Found(found) => r == Ok::<bool, ConfigError>(false)
                    && final(self).spec_phase() == SavePhase::FileWrite(!found),
                _ => (reply matches FsReply::Failed(e)
                    && (r matches Err(ConfigError::ConfigFileWriteError(p, c))
                    && p@ == old(self).spec_path() && c == e))
                    && final(self).spec_phase() matches SavePhase::Finished,
            },
            old(self).spec_phase() matches SavePhase::FileWrite(_) ==> match reply {
                FsReply::Done => r == Ok::<bool, ConfigError>(true)
                    && final(self).spec_phase() matches SavePhase::Finished,
                _ => (reply matches FsReply::Failed(e)
                    && (r matches Err(ConfigError::ConfigFileWriteError(p, c))
                    && p@ == old(self).spec_path() && c == e))
                    && final(self).spec_phase() matches SavePhase::Finished,
            },
    {
        let phase = self.phase;
        match (phase, reply) {
            (SavePhase::RootCheck, FsReply::Found(true)) => {
                self.phase = SavePhase::FileCheck;
                Ok(false)
            },
            (SavePhase::RootCheck, FsReply::Found(false)) => {
                self.phase = SavePhase::RootCreate;
                Ok(false)
            },
            (SavePhase::RootCheck, FsReply::Failed(e)) => {
                self.phase = SavePhase::Finished;
                Err(ConfigError::ConfigRootLoadError(self.root.clone(), e))
            },
            (SavePhase::RootCreate, FsReply::Done) => {
                self.phase = SavePhase::FileCheck;
                Ok(false)
            },
            (SavePhase::RootCreate, FsReply::Failed(e)) => {
                self.phase = SavePhase::Finished;
                Err(ConfigError::ConfigRootCreateError(self.root.clone(), e))
            },
            (SavePhase::FileCheck, FsReply::Found(found)) => {
                self.phase = SavePhase::FileWrite(!found);
                Ok(false)
            },
            (SavePhase::FileCheck, FsReply::Failed(e)) => {
                self.phase = SavePhase::Finished;
                Err(ConfigError::ConfigFileWriteError(self.path.clone(), e))
            },
            (SavePhase::FileWrite(_), FsReply::Done) => {
                self.phase = SavePhase::Finished;
                Ok(true)
            },
            (SavePhase::FileWrite(_), FsReply::Failed(e)) => {
                self.phase = SavePhase::Finished;
                Err(ConfigError::ConfigFileWriteError(self.path.clone(), e))
            },
            _ => vstd::pervasive::unreached(),
        }
    }
}

} // verus!
