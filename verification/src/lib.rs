//! Packaging engine for emulator core assets.
//!
//! Given a core's configuration (slot patterns, per-folder overrides, memory
//! writes, core selection and an optional slot limit), the library decides for
//! a candidate asset folder whether it qualifies, which configuration values
//! apply to it, which files fill its slots and in what order, and what the
//! resulting instance descriptor and its output location are.
//!
//! Paths are handled as text with `/` as the separator.

pub mod path_text;
pub mod error;
pub mod config;
pub mod glob_resolver;
pub mod matcher;
pub mod descriptor;
pub mod builder;
pub mod filename;
pub mod packaging;
pub mod discovery;
