//! Stacking the windows of several EVE clients and cycling the focus
//! through them, under KDE Plasma, Sway and Hyprland.
//!
//! The library decides and the caller acts: it says which control tool is to
//! be run with which arguments, reads what the tool printed, and keeps the
//! cycle state. Running tools, the command socket and the lock file are the
//! caller's.

pub mod text;
pub mod sift;
pub mod codec;
pub mod error;
pub mod command;
pub mod json;
pub mod config;
pub mod window;
pub mod cycle_state;
pub mod backend;
pub mod kwin;
pub mod sway;
pub mod hyprland;
pub mod window_manager;
pub mod daemon;
pub mod direct;
