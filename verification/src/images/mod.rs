//! Icons for HUD items.

pub mod icons;
