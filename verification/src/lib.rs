//! Patching of the Darktide bundle database so that the game loads the mod
//! entry bundle, and the way back.
//!
//! The crate holds the decisions only: where a marker lies in the database,
//! what state the database is in, what the patched bytes are, and which file
//! operation comes next. Reading, writing and renaming files, showing prompts
//! and looking up the installation are left to the program around it.

pub mod config;
pub mod detect;
pub mod disk;
pub mod engine;
pub mod install;
pub mod laws;
pub mod locate;
pub mod prompt;
pub mod registry;
pub mod scan;
pub mod splice;
