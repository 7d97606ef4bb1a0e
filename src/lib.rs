//! Builds a sharable description of a named package environment: the
//! packages the user asked for, with the versions actually installed, and
//! the packages installed from the language's own package index.
//!
//! The library holds the logic: reading the environment listing, splitting
//! export entries, reconciling the three sources into one descriptor and
//! rendering it. Running the package manager and parsing its structured
//! documents is left to the caller, which hands plain values in.

pub mod catalog;
pub mod command;
pub mod env;
pub mod error;
pub mod export;
pub mod reconcile;
pub mod render;

pub use catalog::{conda_env_list, env_exists, env_not_found};
pub use command::{check_command_status, env_export_args, env_list_args, join_args, list_args};
pub use env::{CondaEnv, CondaPackage};
pub use error::CondaError;
pub use export::{conda_env_export, split_entry};
pub use reconcile::{follow_up_queries, sharable_env};
