//! First-run configuration bootstrapping for a terminal music player.
//!
//! The library decides every step of locating, creating, loading and
//! validating the player's configuration file; the binary around it only
//! performs the file-system and console actions that the decisions call for.

pub mod config;
pub mod document;
pub mod error;
pub mod input;
pub mod resolve;
