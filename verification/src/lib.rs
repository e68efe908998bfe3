//! Checks the modules that a JavaScript file imports against the packages that its
//! `package.json` declares.
//!
//! The library decides; it performs no input or output of its own. A [`session::Session`] says
//! which file to look for, which file to read or which module to resolve next, is told the
//! outcome, and ends with the diagnostics for the file.
pub mod text;
pub mod path;
pub mod collections;
pub mod json;
pub mod config;
pub mod glob;
pub mod package;
pub mod module;
pub mod syntax;
pub mod verdict;
pub mod check;
pub mod session;
pub mod world;
pub mod laws;
pub mod option_laws;
pub mod verdict_laws;
pub mod node_laws;
pub mod module_laws;
pub mod package_laws;
pub mod file_laws;
pub mod view_laws;
