//! Projects and branches as they are persisted.

use vstd::prelude::*;
use crate::text::str_eq;

verus! {

/// One logical database environment.
#[derive(Debug, Clone)]
pub struct Project {
    pub id: String,
    pub name: String,
    pub image: String,
    pub storage_backend: StorageBackend,
    pub storage_config: Option<String>,
    pub created_at: i64,
}

/// One materialized database instance within a project.
#[derive(Debug, Clone)]
pub struct Branch {
    pub id: String,
    pub project_id: String,
    pub name: String,
    pub parent_branch_id: Option<String>,
    pub state: BranchState,
    pub data_dir: String,
    pub container_name: String,
    pub port: u16,
    pub storage_metadata: Option<String>,
    pub created_at: i64,
}

/// The copy-on-write primitive that produces a branch's data directory.
#[derive(Debug, Clone, Copy, PartialEq, Eq, Structural)]
pub enum StorageBackend {
    Zfs,
    ApfsClone,
    Reflink,
    Copy,
}

/// The persisted name of a storage backend.
pub open spec fn backend_text(b: StorageBackend) -> Seq<char> {
    match b {
        StorageBackend::Zfs => "zfs"@,
        StorageBackend::ApfsClone => "apfs_clone"@,
        StorageBackend::Reflink => "reflink"@,
        StorageBackend::Copy => "copy"@,
    }
}

/// The storage backend whose persisted name is `s`, if any.
pub open spec fn backend_of_text(s: Seq<char>) -> Option<StorageBackend> {
    if s == "zfs"@ {
        Some(StorageBackend::Zfs)
    } else if s == "apfs_clone"@ {
        Some(StorageBackend::ApfsClone)
    } else if s == "reflink"@ {
        Some(StorageBackend::Reflink)
    } else if s == "copy"@ {
        Some(StorageBackend::Copy)
    } else {
        None
    }
}

impl StorageBackend {
    pub fn as_str(self) -> (r: &'static str)
        ensures
            r@ == backend_text(self),
    {
        match self {
            StorageBackend::Zfs => "zfs",
            StorageBackend::ApfsClone => "apfs_clone",
            StorageBackend::Reflink => "reflink",
            StorageBackend::Copy => "copy",
        }
    }

    pub fn from_str(value: &str) -> (r: Option<StorageBackend>)
        ensures
            r == backend_of_text(value@),
    {
        if str_eq(value, "zfs") {
            Some(StorageBackend::Zfs)
        } else if str_eq(value, "apfs_clone") {
            Some(StorageBackend::ApfsClone)
        } else if str_eq(value, "reflink") {
            Some(StorageBackend::Reflink)
        } else if str_eq(value, "copy") {
            Some(StorageBackend::Copy)
        } else {
            None
        }
    }
}

/// Lifecycle state of a branch.
#[derive(Debug, Clone, Copy, PartialEq, Eq, Structural)]
pub enum BranchState {
    Provisioning,
    Stopped,
    Running,
    Failed,
}

/// The persisted name of a branch state.
pub open spec fn state_text(s: BranchState) -> Seq<char> {
    match s {
        BranchState::Provisioning => "provisioning"@,
        BranchState::Stopped => "stopped"@,
        BranchState::Running => "running"@,
        BranchState::Failed => "failed"@,
    }
}

/// The branch state whose persisted name is `s`, if any.
pub open spec fn state_of_text(s: Seq<char>) -> Option<BranchState> {
    if s == "provisioning"@ {
        Some(BranchState::Provisioning)
    } else if s == "stopped"@ {
        Some(BranchState::Stopped)
    } else if s == "running"@ {
        Some(BranchState::Running)
    } else if s == "failed"@ {
        Some(BranchState::Failed)
    } else {
        None
    }
}

impl BranchState {
    pub fn as_str(self) -> (r: &'static str)
        ensures
            r@ == state_text(self),
    {
        match self {
            BranchState::Provisioning => "provisioning",
            BranchState::Stopped => "stopped",
            BranchState::Running => "running",
            BranchState::Failed => "failed",
        }
    }

    pub fn from_str(value: &str) -> (r: Option<BranchState>)
        ensures
            r == state_of_text(value@),
    {
        if str_eq(value, "provisioning") {
            Some(BranchState::Provisioning)
        } else if str_eq(value, "stopped") {
            Some(BranchState::Stopped)
        } else if str_eq(value, "running") {
            Some(BranchState::Running)
        } else if str_eq(value, "failed") {
            Some(BranchState::Failed)
        } else {
            None
        }
    }
}

/// A storage backend's persisted name reads back as that backend.
pub proof fn lemma_backend_text_round_trip(b: StorageBackend)
    ensures
        backend_of_text(backend_text(b)) == Some(b),
{
    reveal_strlit("zfs");
    reveal_strlit("apfs_clone");
    reveal_strlit("reflink");
    reveal_strlit("copy");
    assert("zfs"@[0] != "apfs_clone"@[0]);
    assert("zfs"@[0] != "reflink"@[0]);
    assert("zfs"@[0] != "copy"@[0]);
    assert("apfs_clone"@[0] != "reflink"@[0]);
    assert("apfs_clone"@[0] != "copy"@[0]);
    assert("reflink"@[0] != "copy"@[0]);
}

/// A branch state's persisted name reads back as that state.
pub proof fn lemma_state_text_round_trip(s: BranchState)
    ensures
        state_of_text(state_text(s)) == Some(s),
{
    reveal_strlit("provisioning");
    reveal_strlit("stopped");
    reveal_strlit("running");
    reveal_strlit("failed");
    assert("provisioning"@[0] != "stopped"@[0]);
    assert("provisioning"@[0] != "running"@[0]);
    assert("provisioning"@[0] != "failed"@[0]);
    assert("stopped"@[0] != "running"@[0]);
    assert("stopped"@[0] != "failed"@[0]);
    assert("running"@[0] != "failed"@[0]);
}

/// Relies on `SystemTime::now` and `duration_since(UNIX_EPOCH)`: milliseconds since the
/// epoch, or zero when the clock is before it. Nothing is promised of the value.
#[verifier::external_body]
pub fn now_epoch_millis() -> (r: i64) {
    let duration = std::time::SystemTime::now()
        .duration_since(std::time::UNIX_EPOCH)
        .unwrap_or_default();
    duration.as_millis() as i64
}

} // verus!
