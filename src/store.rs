//! Records written to and read from the state store.

use vstd::prelude::*;
use crate::model::{
    backend_of_text, state_of_text, Branch, BranchState, Project, StorageBackend,
};

verus! {

/// A project about to be inserted.
#[derive(Debug)]
pub struct NewProject {
    pub name: String,
    pub image: String,
    pub storage_backend: StorageBackend,
    pub storage_config: Option<String>,
}

/// A branch about to be inserted.
#[derive(Debug)]
pub struct NewBranch {
    pub id: String,
    pub project_id: String,
    pub name: String,
    pub parent_branch_id: Option<String>,
    pub state: BranchState,
    pub data_dir: String,
    pub container_name: String,
    pub port: u16,
    pub storage_metadata: Option<String>,
}

/// Reads a stored branch state; text that names no state reads as failed.
pub fn state_from_column(text: &str) -> (r: BranchState)
    ensures
        r == (match state_of_text(text@) {
            Some(s) => s,
            None => BranchState::Failed,
        }),
{
    match BranchState::from_str(text) {
        Some(s) => s,
        None => BranchState::Failed,
    }
}

/// Reads a stored storage backend; text that names no backend reads as a full copy.
pub fn backend_from_column(text: &str) -> (r: StorageBackend)
    ensures
        r == (match backend_of_text(text@) {
            Some(b) => b,
            None => StorageBackend::Copy,
        }),
{
    match StorageBackend::from_str(text) {
        Some(b) => b,
        None => StorageBackend::Copy,
    }
}

/// The project record that an insert produces.
pub fn project_from_new(input: NewProject, id: String, created_at: i64) -> (r: Project)
    ensures
        r.id == id,
        r.name == input.name,
        r.image == input.image,
        r.storage_backend == input.storage_backend,
        r.storage_config == input.storage_config,
        r.created_at == created_at,
{
    Project {
        id,
        name: input.name,
        image: input.image,
        storage_backend: input.storage_backend,
        storage_config: input.storage_config,
        created_at,
    }
}

/// The branch record that an insert produces.
pub fn branch_from_new(input: NewBranch, created_at: i64) -> (r: Branch)
    ensures
        r.id == input.id,
        r.project_id == input.project_id,
        r.name == input.name,
        r.parent_branch_id == input.parent_branch_id,
        r.state == input.state,
        r.data_dir == input.data_dir,
        r.container_name == input.container_name,
        r.port == input.port,
        r.storage_metadata == input.storage_metadata,
        r.created_at == created_at,
{
    Branch {
        id: input.id,
        project_id: input.project_id,
        name: input.name,
        parent_branch_id: input.parent_branch_id,
        state: input.state,
        data_dir: input.data_dir,
        container_name: input.container_name,
        port: input.port,
        storage_metadata: input.storage_metadata,
        created_at,
    }
}

/// The row a create records before starting the container: provisioning,
/// and linked to the parent it was cloned from, if any.
pub fn provisioning_branch(
    id: String,
    project_id: String,
    name: String,
    parent: Option<&Branch>,
    data_dir: String,
    container_name: String,
    port: u16,
    storage_metadata: Option<String>,
) -> (r: NewBranch)
    ensures
        r.id == id,
        r.project_id == project_id,
        r.name == name,
        r.parent_branch_id == (match parent {
            Some(p) => Some(p.id),
            None => None,
        }),
        r.state == BranchState::Provisioning,
        r.data_dir == data_dir,
        r.container_name == container_name,
        r.port == port,
        r.storage_metadata == storage_metadata,
{
    let parent_branch_id = match parent {
        Some(p) => Some(p.id.clone()),
        None => None,
    };
    NewBranch {
        id,
        project_id,
        name,
        parent_branch_id,
        state: BranchState::Provisioning,
        data_dir,
        container_name,
        port,
        storage_metadata,
    }
}

} // verus!
