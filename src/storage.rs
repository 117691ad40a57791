//! The storage coordinator: backend selection, health report, and dispatch to
//! the copy-on-write drivers.

use vstd::prelude::*;
use vstd::string::*;
use crate::model::{StorageBackend, backend_text};

verus! {

/// The backend chosen for a new project, and its configuration.
#[derive(Debug, Clone)]
pub struct StorageSelection {
    pub backend: StorageBackend,
    /// Backend-specific configuration; for ZFS, the encoded root dataset.
    pub config: Option<String>,
}

/// One backend's line in the storage health report.
#[derive(Debug, Clone)]
pub struct StorageDoctorEntry {
    pub kind: String,
    pub available: bool,
    pub detail: String,
    pub selected: bool,
}

/// The storage health report.
#[derive(Debug, Clone)]
pub struct StorageDoctorReport {
    pub entries: Vec<StorageDoctorEntry>,
    pub default_backend: StorageBackend,
}

/// A ZFS project's configuration.
#[derive(Debug, Clone)]
pub struct ZfsProjectConfig {
    pub root_dataset: String,
}

/// A ZFS branch's storage metadata.
#[derive(Debug, Clone)]
pub struct ZfsBranchMetadata {
    pub dataset: String,
    pub origin_snapshot: Option<String>,
}

/// The result of probing one backend.
#[derive(Debug, Clone)]
pub struct BackendDetection {
    pub available: bool,
    pub detail: String,
    pub root_dataset: Option<String>,
}

/// How a directory-based driver copies a data directory.
#[derive(Debug, Clone, Copy, PartialEq, Eq, Structural)]
pub enum LocalMode {
    ApfsClone,
    Reflink,
    Copy,
}

/// The directory-based driver (APFS clone, reflink, full copy).
#[derive(Debug, Clone, Copy)]
pub struct LocalDriver;

impl LocalDriver {
    pub fn new() -> (r: LocalDriver) {
        LocalDriver
    }
}

/// The ZFS driver.
#[derive(Debug, Clone, Copy)]
pub struct ZfsDriver;

impl ZfsDriver {
    pub fn new() -> (r: ZfsDriver) {
        ZfsDriver
    }
}

/// Picks and drives the storage backend of each project.
#[derive(Debug, Clone)]
pub struct StorageCoordinator {
    pub projects_root: String,
    pub local: LocalDriver,
    pub zfs: ZfsDriver,
}

impl StorageCoordinator {
    pub fn new(projects_root: String) -> (r: StorageCoordinator)
        ensures
            r.projects_root == projects_root,
    {
        StorageCoordinator { projects_root, local: LocalDriver::new(), zfs: ZfsDriver::new() }
    }
}

/// The first available backend in the order of preference zfs, apfs_clone,
/// reflink, copy; copy is always available.
pub open spec fn preferred_backend(zfs: bool, apfs: bool, reflink: bool) -> StorageBackend {
    if zfs {
        StorageBackend::Zfs
    } else if apfs {
        StorageBackend::ApfsClone
    } else if reflink {
        StorageBackend::Reflink
    } else {
        StorageBackend::Copy
    }
}

/// Picks the default backend from the probes' availability.
pub fn default_backend(zfs: bool, apfs: bool, reflink: bool) -> (r: StorageBackend)
    ensures
        r == preferred_backend(zfs, apfs, reflink),
{
    if zfs {
        StorageBackend::Zfs
    } else if apfs {
        StorageBackend::ApfsClone
    } else if reflink {
        StorageBackend::Reflink
    } else {
        StorageBackend::Copy
    }
}

fn entry(kind: StorageBackend, available: bool, detail: String, chosen: StorageBackend) -> (r:
    StorageDoctorEntry)
    ensures
        r.kind@ == backend_text(kind),
        r.available == available,
        r.detail == detail,
        r.selected == (kind == chosen),
{
    StorageDoctorEntry { kind: String::from_str(kind.as_str()), available, detail, selected: kind == chosen }
}

/// Builds the storage health report from the three probes: one entry per
/// backend in the order of preference, the chosen default marked selected.
pub fn doctor_report(zfs: BackendDetection, apfs: BackendDetection, reflink: BackendDetection) -> (r:
    StorageDoctorReport)
    ensures
        r.default_backend == preferred_backend(zfs.available, apfs.available, reflink.available),
        r.entries@.len() == 4,
        r.entries@[0].kind@ == backend_text(StorageBackend::Zfs),
        r.entries@[1].kind@ == backend_text(StorageBackend::ApfsClone),
        r.entries@[2].kind@ == backend_text(StorageBackend::Reflink),
        r.entries@[3].kind@ == backend_text(StorageBackend::Copy),
        r.entries@[0].available == zfs.available && r.entries@[0].detail == zfs.detail,
        r.entries@[1].available == apfs.available && r.entries@[1].detail == apfs.detail,
        r.entries@[2].available == reflink.available && r.entries@[2].detail == reflink.detail,
        r.entries@[3].available,
        forall|i: int| 0 <= i < 4 ==> (#[trigger] r.entries@[i].selected <==> backend_of_entry(i) == r.default_backend),
{
    let chosen = default_backend(zfs.available, apfs.available, reflink.available);
    let mut entries: Vec<StorageDoctorEntry> = Vec::new();
    entries.push(entry(StorageBackend::Zfs, zfs.available, zfs.detail, chosen));
    entries.push(entry(StorageBackend::ApfsClone, apfs.available, apfs.detail, chosen));
    entries.push(entry(StorageBackend::Reflink, reflink.available, reflink.detail, chosen));
    entries.push(entry(StorageBackend::Copy, true, String::from_str("portable full copy fallback"), chosen));
    StorageDoctorReport { entries, default_backend: chosen }
}

/// The backend that the `i`-th entry of the health report describes.
pub open spec fn backend_of_entry(i: int) -> StorageBackend {
    if i == 0 {
        StorageBackend::Zfs
    } else if i == 1 {
        StorageBackend::ApfsClone
    } else if i == 2 {
        StorageBackend::Reflink
    } else {
        StorageBackend::Copy
    }
}

/// A project's storage settings are consistent: ZFS requires a configuration.
pub open spec fn storage_settings_valid(backend: StorageBackend, config: Option<String>) -> bool {
    backend == StorageBackend::Zfs ==> (config matches Some(c) && c@.len() > 0)
}

/// Selects the storage of a new project. `zfs_config` is the encoded
/// configuration of the ZFS root dataset found when ZFS is the default; without
/// one the project falls back to a full copy.
pub fn select_for_new_project(default: StorageBackend, zfs_config: Option<String>) -> (r:
    StorageSelection)
    ensures
        default != StorageBackend::Zfs ==> r.backend == default && r.config is None,
        default == StorageBackend::Zfs ==> (match zfs_config {
            Some(c) => if c@.len() > 0 {
                r.backend == StorageBackend::Zfs && r.config == Some(c)
            } else {
                r.backend == StorageBackend::Copy && r.config is None
            },
            None => r.backend == StorageBackend::Copy && r.config is None,
        }),
        storage_settings_valid(r.backend, r.config),
{
    match default {
        StorageBackend::Zfs => match zfs_config {
            Some(c) => if c.unicode_len() > 0 {
                StorageSelection { backend: StorageBackend::Zfs, config: Some(c) }
            } else {
                StorageSelection { backend: StorageBackend::Copy, config: None }
            },
            None => StorageSelection { backend: StorageBackend::Copy, config: None },
        },
        other => StorageSelection { backend: other, config: None },
    }
}

/// Every selection for a new project is a valid storage setting: one of the
/// four backends, and ZFS only with a configuration.
pub proof fn lemma_selection_valid(default: StorageBackend, zfs_config: Option<String>, r: StorageSelection)
    requires
        default != StorageBackend::Zfs ==> r.backend == default && r.config is None,
        default == StorageBackend::Zfs ==> (match zfs_config {
            Some(c) => if c@.len() > 0 {
                r.backend == StorageBackend::Zfs && r.config == Some(c)
            } else {
                r.backend == StorageBackend::Copy && r.config is None
            },
            None => r.backend == StorageBackend::Copy && r.config is None,
        }),
    ensures
        storage_settings_valid(r.backend, r.config),
        r.backend is Zfs || r.backend is ApfsClone || r.backend is Reflink || r.backend is Copy,
{
}

/// The directory driver mode of a backend; ZFS has its own driver.
pub fn local_mode(backend: StorageBackend) -> (r: Option<LocalMode>)
    ensures
        backend == StorageBackend::Zfs <==> r is None,
        backend == StorageBackend::ApfsClone <==> r == Some(LocalMode::ApfsClone),
        backend == StorageBackend::Reflink <==> r == Some(LocalMode::Reflink),
        backend == StorageBackend::Copy <==> r == Some(LocalMode::Copy),
{
    match backend {
        StorageBackend::Zfs => None,
        StorageBackend::ApfsClone => Some(LocalMode::ApfsClone),
        StorageBackend::Reflink => Some(LocalMode::Reflink),
        StorageBackend::Copy => Some(LocalMode::Copy),
    }
}

fn args(parts: &[&str]) -> (r: Vec<String>)
    ensures
        r@.len() == parts@.len(),
        forall|i: int| 0 <= i < parts@.len() ==> #[trigger] r@[i]@ == parts@[i]@,
{
    let mut v: Vec<String> = Vec::new();
    let mut i: usize = 0;
    while i < parts.len()
        invariant
            i <= parts@.len(),
            v@.len() == i,
            forall|j: int| 0 <= j < i ==> #[trigger] v@[j]@ == parts@[j]@,
        decreases parts@.len() - i,
    {
        v.push(String::from_str(parts[i]));
        i += 1;
    }
    v
}

pub open spec fn texts(v: Seq<String>) -> Seq<Seq<char>> {
    v.map_values(|s: String| s@)
}

/// The `cp` argument lists that copy the contents of a data directory
/// (`source` ends in `/.`) into `target`, tried in order until one succeeds:
/// a copy-on-write attempt first where the mode has one, then a deep copy.
pub fn clone_commands(mode: LocalMode, source: &str, target: &str) -> (r: Vec<Vec<String>>)
    ensures
        mode == LocalMode::ApfsClone ==> r@.len() == 2 && texts(r@[0]@) == seq!["-cR"@, source@, target@]
            && texts(r@[1]@) == seq!["-R"@, source@, target@],
        mode == LocalMode::Reflink ==> r@.len() == 2 && texts(r@[0]@) == seq!["-a"@, "--reflink=auto"@, source@, target@]
            && texts(r@[1]@) == seq!["-a"@, source@, target@],
        mode == LocalMode::Copy ==> r@.len() == 1 && texts(r@[0]@) == seq!["-a"@, source@, target@],
{
    let mut out: Vec<Vec<String>> = Vec::new();
    match mode {
        LocalMode::ApfsClone => {
            let a = args(&["-cR", source, target]);
            let b = args(&["-R", source, target]);
            proof {
                assert(texts(a@) =~= seq!["-cR"@, source@, target@]);
                assert(texts(b@) =~= seq!["-R"@, source@, target@]);
            }
            out.push(a);
            out.push(b);
        },
        LocalMode::Reflink => {
            let a = args(&["-a", "--reflink=auto", source, target]);
            let b = args(&["-a", source, target]);
            proof {
                assert(texts(a@) =~= seq!["-a"@, "--reflink=auto"@, source@, target@]);
                assert(texts(b@) =~= seq!["-a"@, source@, target@]);
            }
            out.push(a);
            out.push(b);
        },
        LocalMode::Copy => {
            let a = args(&["-a", source, target]);
            proof {
                assert(texts(a@) =~= seq!["-a"@, source@, target@]);
            }
            out.push(a);
        },
    }
    out
}

} // verus!
