//! Control layer of a dotfile-patch manager for INI-style configuration files.
//!
//! A small directive language says how one configuration file is reconciled
//! between its live copy and the copy tracked in a dotfile repository. This
//! crate parses that language, compiles it into the two action tables that the
//! merge engine consumes, and decides what has to happen when a file is
//! captured back into the repository.
//!
//! The way through the crate: [`grammar`] says what the language is and
//! [`parser`] reads it; [`config`] compiles directives into the tables of
//! [`table`], which [`lookup`] consults; [`capture`] filters a file that is
//! captured, and [`machine`] runs the capture step by step, on the decisions
//! of [`workflow`]. [`engine`] is the boundary to the merge engine.

pub mod capture;
pub mod config;
pub mod directive;
pub mod doctor;
pub mod engine;
pub mod grammar;
pub mod laws;
pub mod lookup;
pub mod machine;
pub mod parser;
pub mod paths;
pub mod quoted;
pub mod script;
pub mod table;
pub mod text;
pub mod transforms;
pub mod version;
pub mod workflow;

pub use config::{compile_for_add, compile_for_merge};
pub use parser::parse_config;
pub use script::{template, Style};
