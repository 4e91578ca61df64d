//! Verified core logic for a small first-person prototype.
//!
//! The game shell (window, rendering, physics integration, audio) lives in an
//! ordinary application crate built on a game engine; everything the game
//! itself decides or computes — input edge handling, the debug toggle, player
//! movement and jumping, projectile spawning and straight-line travel, the UI
//! color cycle and FPS readout text, and the procedural debug texture — is
//! stated and proved here over fixed-point integer coordinates. The shell
//! converts between its floating-point vectors and this crate's milli-unit
//! integer vectors at the boundary.

pub mod debug_settings;
pub mod fixed;
pub mod input;
pub mod player;
pub mod projectile;
pub mod scene;
pub mod ui;
