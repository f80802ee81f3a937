//! A bookmark-and-jump helper for interactive shells.
//!
//! The library resolves short names to filesystem locations and encodes the
//! outcome as a line of directives that a shell function, the runner,
//! re-executes in the parent shell. It decides and formats; reading the
//! database, the filesystem and the environment is left to the caller, who
//! hands over what was found.
//!
//! - `text`, `paths`: strings and paths as sequences of characters.
//! - `runners`: the supported shells and the installation of their runners.
//! - `configs`, `metadata`: settings and environment.
//! - `store`: the statements that keep shortcuts and history.
//! - `groups`, `manifest`: per-directory groups and their TOML manifest.
//! - `hopper`: resolution and the encoding of directives.
//! - `args`, `session`: requests, and carrying them out step by step.
//! - `listing`: the layout of listings.
pub mod args;
pub mod configs;
pub mod groups;
pub mod hopper;
pub mod listing;
pub mod manifest;
pub mod metadata;
pub mod paths;
pub mod runners;
pub mod session;
pub mod store;
pub mod text;

pub use hopper::Hopper;
pub use paths::sanitize;
