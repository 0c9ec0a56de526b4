//! The data model and controller logic of a hotkey HUD for equipping items
//! in cycles: item classification from keywords, icons and colors, item
//! cycles and equipment sets.

pub mod controller;

pub mod images;

pub mod data;
pub mod plugin;
pub mod text;
