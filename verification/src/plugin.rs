//! Types shared between the HUD logic and the game side.

use vstd::prelude::*;

verus! {

/// Hud elements to draw.
#[derive(Clone, Copy, Debug, PartialEq, Eq, Hash, Structural)]
pub enum HudElement {
    Power,
    Utility,
    Left,
    Right,
    Ammo,
    EquipSet,
    /// Not drawn.
    NotDrawn,
}

/// Text alignment options.
#[derive(Clone, Copy, Debug, PartialEq, Eq, Hash, Structural)]
pub enum Align {
    Left,
    Right,
    Center,
}

/// Color as rgba between 0 and 255. The default is white at full alpha.
#[derive(Clone, Copy, Debug, PartialEq, Eq, Hash, Structural)]
pub struct Color {
    pub r: u8,
    pub g: u8,
    pub b: u8,
    pub a: u8,
}

impl Default for Color {
    fn default() -> (c: Self)
        ensures
            c == (Color { r: 255, g: 255, b: 255, a: 255 }),
    {
        Self { r: 255, g: 255, b: 255, a: 255 }
    }
}

/// White at full alpha.
pub open spec fn white() -> Color {
    Color { r: 255, g: 255, b: 255, a: 255 }
}

/// This enum maps key presses to the desired action.
#[derive(Clone, Copy, Debug, PartialEq, Eq, Hash, Structural)]
pub enum Action {
    /// Nothing to do, possibly because the key was not one of our hotkeys.
    NoAction,
    /// The power/shouts hotkey.
    Power,
    /// The left-hand cycle hotkey.
    Left,
    /// The right-hand cycle hotkey.
    Right,
    /// The utility-item cycle hotkey.
    Utility,
    /// The activate-utility-item hotkey.
    Activate,
    /// The HUD toggle hotkey.
    ShowHide,
    /// Refresh the layout by re-reading the layout file.
    RefreshLayout,
    /// Long press the left cycle key.
    LongPressLeft,
    /// Long press the right cycle key.
    LongPressRight,
    /// Long press the powers/shouts key.
    LongPressPower,
    /// Long press the utility key.
    LongPressUtility,
    /// The equipset cycle hotkey.
    Equipment,
    /// Unequip both hands.
    UnequipHands,
}

/// A high-level item category, used to jump-start item categorization via
/// keywords and form data.
#[derive(Clone, Copy, Debug, PartialEq, Eq, Hash, Structural)]
pub enum ItemCategory {
    Ammo,
    Armor,
    Food,
    HandToHand,
    Lantern,
    Potion,
    Power,
    Scroll,
    Shout,
    Spell,
    Torch,
    Weapon,
    Empty,
}

/// What was done with a key event, so the game side can present UI.
#[derive(Clone, Copy, Debug, PartialEq, Eq, Hash, Structural)]
pub struct KeyEventResponse {
    /// Did we handle this keypress?
    pub handled: bool,
    /// Do we need to start a timer?
    pub start_timer: Action,
    /// Do we need to stop a timer?
    pub stop_timer: Action,
}

/// What the player has equipped, and which armor slots are empty.
#[derive(Clone, Debug, PartialEq, Eq, Hash)]
pub struct EquippedData {
    pub items: Vec<String>,
    pub empty_slots: Vec<u8>,
}

} // verus!
