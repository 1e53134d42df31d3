//! Minecraft versions: rules, libraries, natives, assets and the command that starts the game.
//!
//! This is intentionally pragmatic: it handles the modern (1.13+) and legacy argument formats,
//! evaluates library/argument rules for the current OS, picks old-style natives, and builds the
//! `java` command. It does not bring a JRE.

pub mod archive;
pub mod args;
pub mod assets;
pub mod command;
pub mod download;
pub mod error;
pub mod game;
pub mod loader;
pub mod maven;
pub mod natives;
pub mod prepare;
pub mod rules;
pub mod version;
