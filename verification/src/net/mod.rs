//! Mojang's manifest and Microsoft/Xbox/Minecraft authentication: what to send and what to make
//! of the replies.

pub mod auth;
pub mod json;
pub mod mojang;
