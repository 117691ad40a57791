//! Git-branch-aligned PostgreSQL branches on a workstation: the verified
//! decision logic of the local branching engine.
//!
//! - `model`, `store`: projects and branches as persisted, and their columns.
//! - `runtime`: container statuses, start/stop plans, deterministic container names.
//! - `ports`: host port allocation.
//! - `reconcile`: recorded states against observed containers.
//! - `engine`: the create and reset flows with the parent-quiesce protocol,
//!   listings and errors.
//! - `storage`, `zfs`: backend selection, health report, copy commands, ZFS naming
//!   and detection.
//! - `seed`: seed source grammar, dump packing and restore outcomes.
//! - `config`, `local`, `backends`: configuration, local settings and reports.
//! - `text`: character-level helpers.

pub mod text;
pub mod model;
pub mod backends;
pub mod runtime;
pub mod ports;
pub mod reconcile;
pub mod engine;
pub mod storage;
pub mod zfs;
pub mod seed;
pub mod store;
pub mod config;
pub mod local;
