//! Spell data handed over by the game, and the damage categories,
//! schools and levels derived from it.

use vstd::prelude::*;

use super::color::InvColor;
use crate::images::icons::Icon;

verus! {

/// The game actor values that spell and potion effects are read from.
#[derive(Clone, Copy, Debug, PartialEq, Eq, Hash, Structural)]
pub enum ActorValue {
    Health,
    HealRate,
    HealRateMult,
    Magicka,
    MagickaRate,
    MagickaRateMult,
    Stamina,
    StaminaRate,
    StaminaRateMult,
    ResistFire,
    ResistFrost,
    ResistShock,
    ResistMagic,
    ResistDisease,
    PoisonResist,
    Other,
}

/// What the game tells us about a spell.
#[derive(Clone, Copy, Debug, PartialEq, Eq, Hash, Structural)]
pub struct SpellData {
    pub hostile: bool,
    pub damage: MagicCategory,
    pub twohanded: bool,
    pub school: School,
    pub level: MagicSpellLevel,
    pub archetype: i32,
}

impl Default for SpellData {
    fn default() -> (r: Self)
        ensures
            r == (SpellData {
                hostile: false,
                damage: MagicCategory::Untyped,
                twohanded: false,
                school: School::NoSchool,
                level: MagicSpellLevel::Novice,
                archetype: 0,
            }),
    {
        SpellData {
            hostile: false,
            damage: MagicCategory::Untyped,
            twohanded: false,
            school: School::NoSchool,
            level: MagicSpellLevel::Novice,
            archetype: 0,
        }
    }
}

/// The damage category a resisting actor value stands for.
pub open spec fn damage_for_resist(resist: ActorValue) -> MagicCategory {
    match resist {
        ActorValue::ResistFire => MagicCategory::Fire,
        ActorValue::ResistFrost => MagicCategory::Frost,
        ActorValue::ResistShock => MagicCategory::Shock,
        ActorValue::ResistMagic => MagicCategory::Arcane,
        ActorValue::ResistDisease => MagicCategory::Disease,
        ActorValue::PoisonResist => MagicCategory::Poison,
        _ => MagicCategory::Untyped,
    }
}

impl SpellData {
    /// Build spell data from the values the game reports.
    pub fn new(
        hostile: bool,
        resist: ActorValue,
        twohanded: bool,
        school: i32,
        level: u32,
        archetype: i32,
    ) -> (r: Self)
        ensures
            r == (SpellData {
                hostile,
                damage: damage_for_resist(resist),
                twohanded,
                school: School::spec_from_i32(school),
                level: MagicSpellLevel::spec_from_skill(level),
                archetype,
            }),
    {
        let school = School::from(school);
        let damage = match resist {
            ActorValue::ResistFire => MagicCategory::Fire,
            ActorValue::ResistFrost => MagicCategory::Frost,
            ActorValue::ResistShock => MagicCategory::Shock,
            ActorValue::ResistMagic => MagicCategory::Arcane,
            ActorValue::ResistDisease => MagicCategory::Disease,
            ActorValue::PoisonResist => MagicCategory::Poison,
            _ => MagicCategory::Untyped,
        };
        Self { hostile, twohanded, school, archetype, level: MagicSpellLevel::from(level), damage }
    }
}

/// Damage and effect categories for magic.
#[derive(Clone, Copy, Debug, PartialEq, Eq, Hash, Structural)]
pub enum MagicCategory {
    Untyped,
    Arcane,
    ArcaneFire,
    Ashfire,
    Astral,
    Bleed,
    Disease,
    Earth,
    Fire,
    Frost,
    FrostFire,
    Lunar,
    Magic,
    Necrotic,
    Poison,
    Shadow,
    Shock,
    ShockArc,
    Stamina,
    Sun,
    Water,
    Wind,
}

impl Default for MagicCategory {
    fn default() -> (r: Self)
        ensures
            r == MagicCategory::Untyped,
    {
        MagicCategory::Untyped
    }
}

impl MagicCategory {
    /// The color each category is drawn with.
    pub open spec fn spec_color(self) -> InvColor {
        match self {
            MagicCategory::Untyped => InvColor::White,
            MagicCategory::Arcane => InvColor::Blue,
            MagicCategory::ArcaneFire => InvColor::Pink,
            MagicCategory::Ashfire => InvColor::Ash,
            MagicCategory::Astral => InvColor::Silver,
            MagicCategory::Bleed => InvColor::Blood,
            MagicCategory::Disease => InvColor::Green,
            MagicCategory::Earth => InvColor::Brown,
            MagicCategory::Fire => InvColor::Fire,
            MagicCategory::Frost => InvColor::Frost,
            MagicCategory::FrostFire => InvColor::Frost,
            MagicCategory::Lunar => InvColor::Silver,
            MagicCategory::Magic => InvColor::Blue,
            MagicCategory::Necrotic => InvColor::Purple,
            MagicCategory::Poison => InvColor::Poison,
            MagicCategory::Shadow => InvColor::Purple,
            MagicCategory::Shock => InvColor::Shock,
            MagicCategory::ShockArc => InvColor::Water,
            MagicCategory::Stamina => InvColor::Green,
            MagicCategory::Sun => InvColor::Sun,
            MagicCategory::Water => InvColor::Water,
            MagicCategory::Wind => InvColor::Gray,
        }
    }

    /// The color to draw this category with.
    pub fn color(&self) -> (r: InvColor)
        ensures
            r == self.spec_color(),
    {
        match self {
            MagicCategory::Untyped => InvColor::White,
            MagicCategory::Arcane => InvColor::Blue,
            MagicCategory::ArcaneFire => InvColor::Pink,
            MagicCategory::Ashfire => InvColor::Ash,
            MagicCategory::Astral => InvColor::Silver,
            MagicCategory::Bleed => InvColor::Blood,
            MagicCategory::Disease => InvColor::Green,
            MagicCategory::Earth => InvColor::Brown,
            MagicCategory::Fire => InvColor::Fire,
            MagicCategory::Frost => InvColor::Frost,
            MagicCategory::FrostFire => InvColor::Frost,
            MagicCategory::Lunar => InvColor::Silver,
            MagicCategory::Magic => InvColor::Blue,
            MagicCategory::Necrotic => InvColor::Purple,
            MagicCategory::Poison => InvColor::Poison,
            MagicCategory::Shadow => InvColor::Purple,
            MagicCategory::Shock => InvColor::Shock,
            MagicCategory::ShockArc => InvColor::Water,
            MagicCategory::Stamina => InvColor::Green,
            MagicCategory::Sun => InvColor::Sun,
            MagicCategory::Water => InvColor::Water,
            MagicCategory::Wind => InvColor::Gray,
        }
    }

    /// The icon of each category that has one.
    pub open spec fn spec_icon(self) -> Option<Icon> {
        match self {
            MagicCategory::Arcane => Some(Icon::SpellStars),
            MagicCategory::Astral => Some(Icon::SpellStars),
            MagicCategory::Bleed => Some(Icon::SpellBleed),
            MagicCategory::Earth => Some(Icon::SpellEarth),
            MagicCategory::Fire => Some(Icon::SpellFire),
            MagicCategory::Frost => Some(Icon::SpellFrost),
            MagicCategory::FrostFire => Some(Icon::SpellFire),
            MagicCategory::Lunar => Some(Icon::SpellMoon),
            MagicCategory::Necrotic => Some(Icon::SpellDesecration),
            MagicCategory::Poison => Some(Icon::SpellPoison),
            MagicCategory::Shadow => Some(Icon::SpellShadow),
            MagicCategory::Shock => Some(Icon::SpellShock),
            MagicCategory::ShockArc => Some(Icon::SpellArclight),
            MagicCategory::Sun => Some(Icon::SpellSun),
            MagicCategory::Water => Some(Icon::SpellWater),
            MagicCategory::Wind => Some(Icon::SpellWind),
            _ => None,
        }
    }

    /// The icon for this category, if it has one.
    pub fn icon(&self) -> (r: Option<Icon>)
        ensures
            r == self.spec_icon(),
    {
        match self {
            MagicCategory::Arcane => Some(Icon::SpellStars),
            MagicCategory::Astral => Some(Icon::SpellStars),
            MagicCategory::Bleed => Some(Icon::SpellBleed),
            MagicCategory::Earth => Some(Icon::SpellEarth),
            MagicCategory::Fire => Some(Icon::SpellFire),
            MagicCategory::Frost => Some(Icon::SpellFrost),
            MagicCategory::FrostFire => Some(Icon::SpellFire),
            MagicCategory::Lunar => Some(Icon::SpellMoon),
            MagicCategory::Necrotic => Some(Icon::SpellDesecration),
            MagicCategory::Poison => Some(Icon::SpellPoison),
            MagicCategory::Shadow => Some(Icon::SpellShadow),
            MagicCategory::Shock => Some(Icon::SpellShock),
            MagicCategory::ShockArc => Some(Icon::SpellArclight),
            MagicCategory::Sun => Some(Icon::SpellSun),
            MagicCategory::Water => Some(Icon::SpellWater),
            MagicCategory::Wind => Some(Icon::SpellWind),
            _ => None,
        }
    }
}

/// The school of magic a spell belongs to.
#[derive(Clone, Copy, Debug, PartialEq, Eq, Hash, Structural)]
pub enum School {
    Alteration,
    Conjuration,
    Destruction,
    Illusion,
    Restoration,
    NoSchool,
}

impl Default for School {
    fn default() -> (r: Self)
        ensures
            r == School::NoSchool,
    {
        School::NoSchool
    }
}

impl School {
    /// The school the game numbers 18 to 22; anything else is no school.
    pub open spec fn spec_from_i32(value: i32) -> School {
        if value == 18 {
            School::Alteration
        } else if value == 19 {
            School::Conjuration
        } else if value == 20 {
            School::Destruction
        } else if value == 21 {
            School::Illusion
        } else if value == 22 {
            School::Restoration
        } else {
            School::NoSchool
        }
    }
}

impl vstd::std_specs::convert::FromSpecImpl<i32> for School {
    open spec fn obeys_from_spec() -> bool {
        true
    }

    open spec fn from_spec(v: i32) -> School {
        School::spec_from_i32(v)
    }
}

impl From<i32> for School {
    fn from(value: i32) -> (r: Self) {
        match value {
            18 => School::Alteration,
            19 => School::Conjuration,
            20 => School::Destruction,
            21 => School::Illusion,
            22 => School::Restoration,
            _ => School::NoSchool,
        }
    }
}

/// How advanced a spell is.
#[derive(Clone, Copy, Debug, PartialEq, Eq, Hash, Structural)]
pub enum MagicSpellLevel {
    Novice,
    Apprentice,
    Adept,
    Master,
    Expert,
}

impl Default for MagicSpellLevel {
    fn default() -> (r: Self)
        ensures
            r == MagicSpellLevel::Novice,
    {
        MagicSpellLevel::Novice
    }
}

impl MagicSpellLevel {
    /// The level for a skill requirement: 100 and up is master, 75 expert,
    /// 50 adept, 25 apprentice, below that novice.
    pub open spec fn spec_from_skill(skill_level: u32) -> MagicSpellLevel {
        if skill_level >= 100 {
            MagicSpellLevel::Master
        } else if skill_level >= 75 {
            MagicSpellLevel::Expert
        } else if skill_level >= 50 {
            MagicSpellLevel::Adept
        } else if skill_level >= 25 {
            MagicSpellLevel::Apprentice
        } else {
            MagicSpellLevel::Novice
        }
    }
}

impl vstd::std_specs::convert::FromSpecImpl<u32> for MagicSpellLevel {
    open spec fn obeys_from_spec() -> bool {
        true
    }

    open spec fn from_spec(v: u32) -> MagicSpellLevel {
        MagicSpellLevel::spec_from_skill(v)
    }
}

impl From<u32> for MagicSpellLevel {
    fn from(skill_level: u32) -> (r: Self) {
        if skill_level >= 100 {
            MagicSpellLevel::Master
        } else if skill_level >= 75 {
            MagicSpellLevel::Expert
        } else if skill_level >= 50 {
            MagicSpellLevel::Adept
        } else if skill_level >= 25 {
            MagicSpellLevel::Apprentice
        } else {
            MagicSpellLevel::Novice
        }
    }
}

/// How a spell is cast.
#[derive(Clone, Copy, Debug, PartialEq, Eq, Hash, Structural)]
pub enum CastingType {
    ConstantEffect,
    FireAndForget,
    Concentration,
    Scroll,
}

impl vstd::std_specs::convert::FromSpecImpl<u32> for CastingType {
    open spec fn obeys_from_spec() -> bool {
        true
    }

    open spec fn from_spec(v: u32) -> CastingType {
        if v == 0 {
            CastingType::ConstantEffect
        } else if v == 1 {
            CastingType::FireAndForget
        } else if v == 2 {
            CastingType::Concentration
        } else {
            CastingType::Scroll
        }
    }
}

impl From<u32> for CastingType {
    fn from(value: u32) -> (r: Self) {
        match value {
            0 => Self::ConstantEffect,
            1 => Self::FireAndForget,
            2 => Self::Concentration,
            _ => Self::Scroll,
        }
    }
}

/// How a spell reaches its target.
#[derive(Clone, Copy, Debug, PartialEq, Eq, Hash, Structural)]
pub enum Delivery {
    Player,
    Touch,
    Aimed,
    TargetActor,
    TargetLocation,
}

impl vstd::std_specs::convert::FromSpecImpl<u32> for Delivery {
    open spec fn obeys_from_spec() -> bool {
        true
    }

    open spec fn from_spec(v: u32) -> Delivery {
        if v == 0 {
            Delivery::Player
        } else if v == 1 {
            Delivery::Touch
        } else if v == 2 {
            Delivery::Aimed
        } else if v == 3 {
            Delivery::TargetActor
        } else {
            Delivery::TargetLocation
        }
    }
}

impl From<u32> for Delivery {
    fn from(value: u32) -> (r: Self) {
        match value {
            0 => Self::Player,
            1 => Self::Touch,
            2 => Self::Aimed,
            3 => Self::TargetActor,
            _ => Self::TargetLocation,
        }
    }
}

/// Spell levels only rise with the skill requirement.
pub proof fn lemma_level_monotone(a: u32, b: u32)
    requires
        a <= b,
    ensures
        level_rank(MagicSpellLevel::spec_from_skill(a)) <= level_rank(
            MagicSpellLevel::spec_from_skill(b),
        ),
{
}

/// The rank of a spell level, from novice up to master.
pub open spec fn level_rank(l: MagicSpellLevel) -> int {
    match l {
        MagicSpellLevel::Novice => 0,
        MagicSpellLevel::Apprentice => 1,
        MagicSpellLevel::Adept => 2,
        MagicSpellLevel::Expert => 3,
        MagicSpellLevel::Master => 4,
    }
}

} // verus!
