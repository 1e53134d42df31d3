//! Zenith: the verified core of a lightweight Minecraft launcher.
//!
//! What the launcher decides or computes stands here; reading, sending, spawning and drawing
//! belong to the program around it, which hands in plain values and takes plain values back.
//! Two decisions are left to that program too, since they go by floating-point numbers: whether
//! the console follows its newest line, and the percentage of the window's progress bar.

pub mod launch;
pub mod launcher;
pub mod log;
pub mod net;
pub mod screen;
pub mod store;
pub mod table;
pub mod text;
pub mod types;

pub use types::{Account, Loader, Session, VersionEntry};
