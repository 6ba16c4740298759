//! Core logic of a command-palette launcher: result ranking, the launcher
//! state machine, command-line splitting, terminal selection, the external
//! plugin protocol model and configuration defaults.

pub mod config;
pub mod domain;
pub mod error;
pub mod input;
pub mod kernel;
pub mod launcher;
pub mod launcher_state;
pub mod protocol;
pub mod text;
