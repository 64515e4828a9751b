//! Scope-checked, recoverable replacements for `rm`, `mv` and `cp`.
//!
//! The library decides; the program around it touches the filesystem.
//! Paths are handled as raw bytes, separated by `/`.
pub mod config;
pub mod cp;
pub mod entry;
pub mod mv;
pub mod notifications;
pub mod paths;
pub mod resolve;
pub mod rm;
pub mod text;
pub mod trash_fallback;
