//! Core logic of a live-wallpaper setter: locate an external media player's
//! window, resolve the monitor it occupies, resize it to cover that monitor,
//! discover the hidden desktop background container, and reparent the player
//! window into it. All operating-system calls are performed by the embedding
//! program; this crate holds the decision logic, verified.

pub mod error;
pub mod handles;
pub mod geometry;
pub mod locator;
pub mod container;
pub mod protocol;
pub mod engine;
pub mod player_args;
