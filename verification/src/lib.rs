//! harbor-core: the verified decisions of Harbor, a local-first registry
//! and runtime for AI agents and MCP servers — cache layout, package
//! validation and file sets, archive integrity, run-target parsing,
//! runtime plans, GitHub import, permissions, registry requests and the
//! MCP gateway. File, process and network I/O stay with the caller.

use vstd::prelude::*;

pub mod text;
pub mod archive;
pub mod auth;
pub mod validate;
pub mod cache;
pub mod checksum;
pub mod manifest;
pub mod package;
pub mod permissions;
pub mod registry_client;
pub mod init;
pub mod run;
pub mod github;
pub mod gateway;
pub mod push;
pub mod ui;

verus! {

/// Version of the harbor binary, recorded in `harbor.lock` (`harbor-version`).
pub const HARBOR_VERSION: &'static str = "0.1.0";

} // verus!
