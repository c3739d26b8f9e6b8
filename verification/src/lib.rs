//! A continuous shuffled audio player library.
//!
//! The verified core of a player that repeatedly picks a track from a
//! watched folder, avoiding the identities held in a short recently-played
//! window, plays it until it either completes or is skipped, and records
//! only natural completions in that window.

pub mod control;
pub mod default_dir;
pub mod laws;
pub mod render;
pub mod schedule;
pub mod select;
pub mod track;
pub mod window;
