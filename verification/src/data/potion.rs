//! Potions and poisons, classified by their main effect.

use vstd::prelude::*;

use super::color::InvColor;
use super::magic::{ActorValue, MagicCategory};
use super::HasIcon;
use crate::images::icons::Icon;
use crate::plugin::Color;

verus! {

/// What a potion does.
#[derive(Clone, Copy, Debug, PartialEq, Eq, Hash, Structural)]
pub enum PotionType {
    Default,
    Poison,
    Resist(MagicCategory),
    Health,
    Magicka,
    Stamina,
}

impl Default for PotionType {
    fn default() -> (r: Self)
        ensures
            r == PotionType::Default,
    {
        PotionType::Default
    }
}

impl PotionType {
    /// The potion type for a main effect: poisons are poisons whatever the
    /// effect; restoring effects pick health, stamina or magicka; resisting
    /// effects pick the resisted category; anything else is a plain potion.
    pub open spec fn spec_from_effect(is_poison: bool, effect: ActorValue) -> PotionType {
        if is_poison {
            PotionType::Poison
        } else {
            match effect {
                ActorValue::Health | ActorValue::HealRateMult | ActorValue::HealRate => PotionType::Health,
                ActorValue::Stamina | ActorValue::StaminaRateMult | ActorValue::StaminaRate => PotionType::Stamina,
                ActorValue::Magicka | ActorValue::MagickaRateMult | ActorValue::MagickaRate => PotionType::Magicka,
                ActorValue::ResistFire => PotionType::Resist(MagicCategory::Fire),
                ActorValue::ResistFrost => PotionType::Resist(MagicCategory::Frost),
                ActorValue::ResistShock => PotionType::Resist(MagicCategory::Shock),
                ActorValue::ResistMagic => PotionType::Resist(MagicCategory::Magic),
                ActorValue::ResistDisease => PotionType::Resist(MagicCategory::Disease),
                ActorValue::PoisonResist => PotionType::Resist(MagicCategory::Poison),
                _ => PotionType::Default,
            }
        }
    }

    /// Classify a potion by whether it is a poison and by its main effect.
    pub fn from_effect(is_poison: bool, effect: ActorValue) -> (r: Self)
        ensures
            r == PotionType::spec_from_effect(is_poison, effect),
    {
        if is_poison {
            return PotionType::Poison;
        }
        match effect {
            ActorValue::Health => PotionType::Health,
            ActorValue::HealRateMult => PotionType::Health,
            ActorValue::HealRate => PotionType::Health,
            ActorValue::Stamina => PotionType::Stamina,
            ActorValue::StaminaRateMult => PotionType::Stamina,
            ActorValue::StaminaRate => PotionType::Stamina,
            ActorValue::Magicka => PotionType::Magicka,
            ActorValue::MagickaRateMult => PotionType::Magicka,
            ActorValue::MagickaRate => PotionType::Magicka,
            ActorValue::ResistFire => PotionType::Resist(MagicCategory::Fire),
            ActorValue::ResistFrost => PotionType::Resist(MagicCategory::Frost),
            ActorValue::ResistShock => PotionType::Resist(MagicCategory::Shock),
            ActorValue::ResistMagic => PotionType::Resist(MagicCategory::Magic),
            ActorValue::ResistDisease => PotionType::Resist(MagicCategory::Disease),
            ActorValue::PoisonResist => PotionType::Resist(MagicCategory::Poison),
            _ => PotionType::Default,
        }
    }

    /// The color each potion type is drawn with.
    pub open spec fn spec_color(self) -> Color {
        match self {
            PotionType::Poison => InvColor::Poison.spec_color(),
            PotionType::Resist(t) => t.spec_color().spec_color(),
            PotionType::Health => InvColor::Red.spec_color(),
            PotionType::Magicka => InvColor::Blue.spec_color(),
            PotionType::Stamina => InvColor::Green.spec_color(),
            PotionType::Default => crate::plugin::white(),
        }
    }

    /// The icon for each potion type.
    pub open spec fn spec_icon(self) -> Icon {
        match self {
            PotionType::Poison => Icon::PotionPoison,
            PotionType::Resist(t) => match t {
                MagicCategory::Fire => Icon::PotionResistFire,
                MagicCategory::Frost => Icon::PotionResistFrost,
                MagicCategory::Shock => Icon::PotionResistShock,
                MagicCategory::Sun => Icon::PotionResistFire,
                _ => Icon::PotionResist,
            },
            PotionType::Health => Icon::PotionHealth,
            PotionType::Magicka => Icon::PotionMagicka,
            PotionType::Stamina => Icon::PotionStamina,
            PotionType::Default => Icon::PotionDefault,
        }
    }
}

impl HasIcon for PotionType {
    fn color(&self) -> (r: Color)
        ensures
            r == self.spec_color(),
    {
        match self {
            PotionType::Poison => InvColor::Poison.color(),
            PotionType::Resist(t) => t.color().color(),
            PotionType::Health => InvColor::Red.color(),
            PotionType::Magicka => InvColor::Blue.color(),
            PotionType::Stamina => InvColor::Green.color(),
            PotionType::Default => Color::default(),
        }
    }

    fn icon(&self) -> (r: &Icon)
        ensures
            *r == self.spec_icon(),
    {
        match self {
            PotionType::Poison => &Icon::PotionPoison,
            PotionType::Resist(t) => match t {
                MagicCategory::Disease => &Icon::PotionResist,
                MagicCategory::Fire => &Icon::PotionResistFire,
                MagicCategory::Frost => &Icon::PotionResistFrost,
                MagicCategory::Magic => &Icon::PotionResist,
                MagicCategory::Poison => &Icon::PotionResist,
                MagicCategory::Shock => &Icon::PotionResistShock,
                MagicCategory::Sun => &Icon::PotionResistFire,
                _ => &Icon::PotionResist,
            },
            PotionType::Health => &Icon::PotionHealth,
            PotionType::Magicka => &Icon::PotionMagicka,
            PotionType::Stamina => &Icon::PotionStamina,
            _ => &Icon::PotionDefault,
        }
    }
}

} // verus!
