//! Unity Commander: the logic behind a command-line tool that manages Unity
//! projects and editor installations.
//!
//! The crate holds the verified part of the tool: parsing and printing of
//! Unity version strings, the non-empty lists the tool keeps versions in,
//! the rules that select, group and filter versions and releases, the
//! arguments that are handed to the Unity editor, and the small text formats
//! the tool reads from Unity projects.

pub mod text;
pub mod version;
pub mod nonempty;
pub mod versions;
pub mod releases;
pub mod listing;
pub mod project;
pub mod cli;
pub mod command;
pub mod cache;
pub mod editor;
pub mod nunit;
pub mod web_releases;
pub mod inject;
pub mod report;
