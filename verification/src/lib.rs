//! Library for launching OCI containers from per-directory profiles.
//!
//! A profile, selected by canonical directory path, is translated into the
//! ordered argument list of a container-engine `run` invocation.

pub mod cli;
pub mod command;
pub mod config;
pub mod errors;
mod host;
pub mod text;

pub use cli::Cli;
pub use config::Config;
