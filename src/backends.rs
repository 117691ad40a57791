//! Kinds of branching backend and the records every backend reports.

use vstd::prelude::*;
use crate::text::{lowercase, lower_of, str_eq};

verus! {

/// A branch as reported to callers.
#[derive(Debug, Clone)]
pub struct BranchInfo {
    pub name: String,
    /// Creation time in milliseconds since the epoch, when known.
    pub created_at: Option<i64>,
    pub parent_branch: Option<String>,
    pub database_name: String,
    pub state: Option<String>,
}

/// How to connect to a branch's database.
#[derive(Debug, Clone)]
pub struct ConnectionInfo {
    pub host: String,
    pub port: u16,
    pub database: String,
    pub user: String,
    pub password: Option<String>,
    pub connection_string: Option<String>,
}

/// A project as reported to callers.
#[derive(Debug, Clone)]
pub struct ProjectInfo {
    pub name: String,
    pub storage_backend: Option<String>,
    pub image: Option<String>,
}

/// The health of a backend's subsystems.
#[derive(Debug, Clone)]
pub struct DoctorReport {
    pub checks: Vec<DoctorCheck>,
}

/// The health of one subsystem.
#[derive(Debug, Clone)]
pub struct DoctorCheck {
    pub name: String,
    pub available: bool,
    pub detail: String,
}

/// The kinds of branching backend.
#[derive(Debug, Clone, Copy, PartialEq, Eq, Structural)]
pub enum BackendType {
    Local,
    PostgresTemplate,
    Neon,
    DBLab,
    Xata,
}

/// A backend type name that names no backend.
#[derive(Debug, Clone)]
pub struct UnknownBackendType {
    pub name: String,
}

/// The backend named by an already lowercased type name, with its aliases.
pub open spec fn backend_type_of(l: Seq<char>) -> Option<BackendType> {
    if l == "local"@ || l == "docker"@ {
        Some(BackendType::Local)
    } else if l == "postgres_template"@ || l == "postgres"@ || l == "postgresql"@ {
        Some(BackendType::PostgresTemplate)
    } else if l == "neon"@ {
        Some(BackendType::Neon)
    } else if l == "dblab"@ || l == "database_lab"@ {
        Some(BackendType::DBLab)
    } else if l == "xata"@ || l == "xata_lite"@ {
        Some(BackendType::Xata)
    } else {
        None
    }
}

impl BackendType {
    /// The backend named by an already lowercased type name.
    pub fn from_lowercase(l: &str) -> (r: Option<BackendType>)
        ensures
            r == backend_type_of(l@),
    {
        if str_eq(l, "local") || str_eq(l, "docker") {
            Some(BackendType::Local)
        } else if str_eq(l, "postgres_template") || str_eq(l, "postgres") || str_eq(l, "postgresql") {
            Some(BackendType::PostgresTemplate)
        } else if str_eq(l, "neon") {
            Some(BackendType::Neon)
        } else if str_eq(l, "dblab") || str_eq(l, "database_lab") {
            Some(BackendType::DBLab)
        } else if str_eq(l, "xata") || str_eq(l, "xata_lite") {
            Some(BackendType::Xata)
        } else {
            None
        }
    }

    /// The backend named by a type name, in any case.
    pub fn from_str(s: &str) -> (r: Result<BackendType, UnknownBackendType>)
        ensures
            (match backend_type_of(lower_of(s@)) {
                Some(t) => r == Ok::<BackendType, UnknownBackendType>(t),
                None => r matches Err(e) && e.name@ == s@,
            }),
    {
        let l = lowercase(s);
        match BackendType::from_lowercase(l.as_str()) {
            Some(t) => Ok(t),
            None => Err(UnknownBackendType { name: String::from_str(s) }),
        }
    }

    /// Whether a type name, in any case, names the local backend.
    pub fn is_local(s: &str) -> (r: bool)
        ensures
            r == (backend_type_of(lower_of(s@)) == Some(BackendType::Local)),
    {
        let l = lowercase(s);
        match BackendType::from_lowercase(l.as_str()) {
            Some(BackendType::Local) => true,
            _ => false,
        }
    }
}

} // verus!
