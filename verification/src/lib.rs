//! Window events and surface-size arithmetic for the egor 2D engine.

pub mod egor_event;
pub mod render_utils;
