//! Navigation and input arbitration for a fullscreen, kiosk-style application
//! launcher.
//!
//! The launcher shows a fixed grid of configured applications. This crate holds
//! the part of it that has state and rules: the index arithmetic of the grid,
//! the arbitration of keyboard and gamepad input into one intent per tick, and
//! the controller that moves the selection, requests launches and times the
//! launch highlight. Every function is verified against a mathematical model of
//! the state it works on.

pub mod animation;
pub mod entry;
pub mod error;
pub mod grid;
pub mod input;
pub mod intent;
pub mod launcher;
pub mod paths;
pub mod state;
