//! A convention linter for the script and scene files of a game project.
//!
//! The crate extracts a small model from every script and scene (kind,
//! declared class name, inheritance target, master-node type), links scenes to
//! the scripts they reference, and evaluates a fixed set of rules against that
//! model.  Every function is specified over sequences of characters.

pub mod text;
pub mod header;
pub mod paths;
pub mod problems;
pub mod script;
pub mod script_rules;
pub mod scene;
pub mod scene_rules;
pub mod laws;
pub mod project;
