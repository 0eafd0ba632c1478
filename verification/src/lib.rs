//! Resolution and acquisition of Minecraft mod files from the Modrinth
//! registry.
//!
//! Given the mods that a user asks for, the library decides what to fetch
//! and what to keep: it holds each project against the configured game
//! version, resolves its direct dependencies, selects among the releases of
//! each project the latest one that fits the game version and the loader,
//! and lets a downloaded file through only if its SHA-512 digest is the one
//! that the registry declared. The network and the file system are not
//! touched here: [`pipeline::Pipeline`] asks for each such piece of work and
//! takes its result.

pub mod acquire;
pub mod api;
pub mod cli;
pub mod compat;
pub mod config;
pub mod digest;
pub mod error;
pub mod model;
pub mod pipeline;
pub mod resolve;
pub mod select;
pub mod text;

pub use acquire::{acquire, settle, Artifact};
pub use api::{
    check_answer, dependencies_url, is_success, project_url, versions_url, REQUEST_TIMEOUT_SECS,
    VERSION_MANIFEST_URL,
};
pub use cli::{parse_command, Command};
pub use config::ConfigReading;
pub use digest::{digest_matches, digest_text, hex_of, verify_sha512};
pub use error::Failure;
pub use model::{
    Config, DVersion, Dependencies, Dependency, DonationUrl, File, Gallery, Hashes, Latest,
    License, MinecraftVersions, ModrinthProject, Project, ProjectVersion, ProjectVersions,
    Version, API_URL, USER_AGENT,
};
pub use pipeline::{Pipeline, Request, Response, Transition};
pub use resolve::{resolve, Resolution};
pub use select::{published_before, select_best, select_best_index};
