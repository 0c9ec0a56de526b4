//! Item data: keyword classification, colors and item types.

pub mod ammo;
pub mod armor;
pub mod base;
pub mod color;
pub mod food;
pub mod keywords;
pub mod magic;
pub mod potion;
pub mod power;
pub mod shout;
pub mod spell;
pub mod weapon;

use vstd::prelude::*;

use crate::images::icons::Icon;
use crate::plugin::Color;
use self::magic::{damage_for_resist, ActorValue, MagicSpellLevel, School, SpellData};

verus! {

/// Anything that has an icon and a color to draw it with.
pub trait HasIcon {
    /// The color to draw the icon with.
    fn color(&self) -> Color;

    /// The icon to draw.
    fn icon(&self) -> &Icon;
}

/// Turning keywords into an item with an icon.
pub trait HasKeywords: Sized {
    /// Classify an item from its name, its keywords and whether it needs both hands.
    fn classify(name: &str, keywords: Vec<String>, twohanded: bool) -> Self;
}

/// What a HUD item is: its category, and which cycles it may join.
pub trait IsHudItem {
    /// Whether the count of such items matters.
    fn count_matters(&self) -> bool;

    /// Whether this is ammunition.
    fn is_ammo(&self) -> bool;

    /// Whether this is armor.
    fn is_armor(&self) -> bool;

    /// Whether this is a spell or a scroll.
    fn is_magic(&self) -> bool;

    /// Whether this is a potion.
    fn is_potion(&self) -> bool;

    /// Whether this is a power or a shout.
    fn is_power(&self) -> bool;

    /// Whether this is a spell.
    fn is_spell(&self) -> bool;

    /// Whether this belongs in the utility cycle.
    fn is_utility(&self) -> bool;

    /// Whether this is a weapon.
    fn is_weapon(&self) -> bool;

    /// Whether this is held in one hand.
    fn is_one_handed(&self) -> bool;

    /// Whether this needs both hands.
    fn two_handed(&self) -> bool;

    /// Whether this may go in the left hand.
    fn left_hand_ok(&self) -> bool;

    /// Whether this may go in the right hand.
    fn right_hand_ok(&self) -> bool;
}

/// Spell data from the values the game reports, boxed for the game side.
pub fn fill_out_spell_data(
    hostile: bool,
    resist: ActorValue,
    twohanded: bool,
    school: i32,
    level: u32,
    archetype: i32,
) -> (r: Box<SpellData>)
    ensures
        *r == (SpellData {
            hostile,
            damage: damage_for_resist(resist),
            twohanded,
            school: School::spec_from_i32(school),
            level: MagicSpellLevel::spec_from_skill(level),
            archetype,
        }),
{
    Box::new(SpellData::new(hostile, resist, twohanded, school, level, archetype))
}

} // verus!
