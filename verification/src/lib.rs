//! Core of a plugin package manager for native-binary plugins.
//!
//! The library resolves a catalog of installable packages from layered
//! descriptor indices, decides per package whether to fetch a prebuilt
//! binary or build from source, models the sandboxed install procedure
//! and its capability surface, keeps the local installation database,
//! and performs the registry client's URI resolution, digest matching
//! and signature gating.
//!
//! All I/O (HTTP, git, process spawning, the filesystem) is performed by
//! the surrounding application; this crate holds the decisions and data
//! structures, with their contracts verified.

pub mod catalog;
pub mod config;
pub mod database;
pub mod elevate;
pub mod error;
pub mod github;
pub mod install;
pub mod local;
pub mod platform;
pub mod pull;
pub mod registry;
pub mod sandbox;
pub mod strutil;
pub mod trusted;

pub use error::Error;
