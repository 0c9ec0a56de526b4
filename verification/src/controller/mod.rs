//! The controller side: item cycles, equipment sets, keys and item kinds.

pub mod control;
pub mod cosave_v0;
pub mod cosave_v1;
pub mod cosave_v2;
pub mod cycleentries;
pub mod cycles;
pub mod entrykind;
pub mod facade;
pub mod hud;
pub mod itemdata;
pub mod itemkind;
pub mod keys;
pub mod settings;
pub mod strings;
pub mod tesitemkind;
