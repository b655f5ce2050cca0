//! A package-registry mirror and private-registry server: the registry model,
//! the archive layout, the mirroring decisions and the Git smart-HTTP bridge.

pub mod command;
pub mod error;
pub mod git_http;
pub mod layout;
pub mod mirror;
pub mod query;
pub mod registry;
pub mod router;
pub mod text;
