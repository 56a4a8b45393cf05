//! Game rules of a top-down survival game: the player's health and status
//! effects, the items it collects, the progression towards sending the rescue
//! signal, companion and enemy decisions, and sprite animation frames.
//!
//! Everything that depends on positions, timers measured in seconds, light
//! intensities or sanity values (all floating point) is driven by the host
//! application; this crate holds the discrete rules it consults.

pub mod animation;
pub mod character_controls;
pub mod collision;
pub mod dialog;
pub mod dog;
pub mod enemies;
pub mod items;
pub mod menu;
pub mod platform;
pub mod room;
pub mod sanity;
pub mod ui;
pub mod win;
