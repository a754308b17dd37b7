//! Decision logic of a desktop application shell: which capability
//! plugins are registered and in what order, how a duplicate launch is
//! resolved, which visual-effect material the window receives on which
//! platform, and the front-end command surface.
//!
//! The host GUI framework performs the actual window management; this
//! crate states and verifies every choice handed to it.

pub mod bootstrap;
pub mod commands;
pub mod effects;
