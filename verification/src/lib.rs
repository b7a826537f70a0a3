//! The configuration of a terminal highlighter: which groups of tokens
//! are highlighted and in which style, how a configuration is read from
//! TOML text, which configuration is loaded, and how a starter file is
//! written.
//!
//! Nothing here reads the environment or touches the file system. The
//! resolver and the bootstrapper are machines that ask their caller for one
//! step at a time; what they decide is stated in their contracts and proved.

pub mod bootstrap;
pub mod config;
pub mod document;
pub mod error;
pub mod groups;
pub mod paths;
pub mod report;
pub mod resolver;
pub mod schema;
pub mod style;
pub mod template;
pub mod text;
pub mod toml_text;
