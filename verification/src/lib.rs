//! Verified core of the RustCycles multiplayer game.

pub mod text;
pub mod console;
pub mod console_laws;
pub mod net;
pub mod cli;
pub mod debug;
pub mod input;
pub mod messages;
pub mod game;
pub mod client;
pub mod roster;
pub mod roster_laws;
