//! Locates the executables a Cargo project has already built and plans their
//! deployment into a destination directory, including the hand-over needed when
//! a copy would replace the program that is currently running.
//!
//! The crate holds the rules only. Reading manifests from disk, probing the
//! artifact directory, copying files and starting processes are left to the
//! caller. [`deployment`] leads through a run step by step: it says what it
//! needs next, and the caller answers. The steps rest on these parts:
//!
//! 1. [`cli`] reads the command line.
//! 2. [`layout`] says where the manifests and the artifacts of a project lie.
//! 3. [`manifest`], [`tauri`] and [`artifacts`] turn manifests and
//!    configurations into candidate names and those into the executables that
//!    have been built.
//! 4. [`destination`] settles the directory to copy into.
//! 5. [`engine`] plans the copies and keeps the account of their outcomes.
//! 6. [`self_update`] leads through the replacement of the running program.
//! 7. [`messages`] writes the lines a run shows, and [`summary`] what it
//!    records at its end.

pub mod artifacts;
pub mod cli;
pub mod deployment;
pub mod destination;
pub mod engine;
pub mod error;
pub mod layout;
pub mod manifest;
pub mod messages;
pub mod options;
pub mod paths;
pub mod platform;
pub mod self_update;
pub mod style;
pub mod summary;
pub mod tauri;
pub mod text;

pub use cli::{
    help_text, parse_args, parse_error_lines, version_banner, version_metadata, Command,
    ParseError, VersionMetadata,
};
pub use error::DeployError;
pub use options::{ProjectType, RunOptions, SummaryFormat};
pub use platform::{exe_filename, exe_filename_on, BuildProfile, Platform};
