//! Rules and decisions for turning an unpacked desktop music application into
//! a modified, redistributable tree: literal text edits, the package-metadata
//! mutation, the ordered fallback over extraction tools, the patch-rule table
//! with its engine, and the staged build pipeline. Everything here works on
//! plain values; reading and writing the file tree is left to the caller.

pub mod cli;
pub mod engine;
pub mod error;
pub mod extract;
pub mod json;
pub mod package;
pub mod patches;
pub mod paths;
pub mod pipeline;
pub mod release;
pub mod rules;
pub mod search;
pub mod text;
