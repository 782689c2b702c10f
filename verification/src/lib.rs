use vstd::prelude::*;

pub mod config;
pub mod error;
pub mod json;
pub mod numbers;
pub mod text;
pub mod validate;
pub mod compositor;
pub mod hyprland;
pub mod ipc;
pub mod events;
pub mod logging;
pub mod cli;
pub mod templates;
pub mod loader;
pub mod window;
pub mod laws;
