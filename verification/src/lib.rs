//! Preflight validation and configuration resolution for an OS-migration
//! tool: merges configuration sources under fixed precedence rules, checks
//! that every artifact the migration needs exists and is of the expected
//! kind and content, and validates the connectivity the provisioned device
//! will depend on.

pub mod error;
pub mod strutil;
pub mod file_ref;
pub mod migrate_config;
pub mod balena_config;
pub mod debug_config;
pub mod config;
pub mod digest;
pub mod cmd;
pub mod fsutil;
pub mod file_info;
pub mod common;
pub mod yaml;
pub mod json;
pub mod urlutil;
pub mod balena_cfg_json;
pub mod volume;

pub use error::{MigError, MigErrorKind};
