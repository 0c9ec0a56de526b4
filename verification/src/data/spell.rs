//! Spells: the icon to depict them and the color to draw it in, with the
//! magic school as the fallback for both.

use vstd::prelude::*;

use super::color::{first_keyword_color, keyword_color_of, InvColor};
use super::magic::{MagicCategory, MagicSpellLevel, School, SpellData};
use super::HasIcon;
use crate::images::icons::Icon;
use crate::plugin::Color;

verus! {

/// A classified spell.
#[derive(Clone, Copy, Debug, PartialEq, Eq, Hash, Structural)]
pub struct SpellType {
    pub icon: Icon,
    pub color: InvColor,
    pub data: SpellData,
}

impl SpellType {
    /// The spell type of a spell nothing is known about.
    pub open spec fn spec_default() -> SpellType {
        SpellType {
            icon: Icon::IconDefault,
            color: InvColor::White,
            data: SpellData {
                hostile: false,
                damage: MagicCategory::Untyped,
                twohanded: false,
                school: School::NoSchool,
                level: MagicSpellLevel::Novice,
                archetype: 0,
            },
        }
    }
}

impl Default for SpellType {
    fn default() -> (r: Self)
        ensures
            r == SpellType::spec_default(),
    {
        SpellType { icon: Icon::IconDefault, color: InvColor::White, data: SpellData::default() }
    }
}

/// The icon of a magic school.
pub open spec fn school_icon(school: School) -> Icon {
    match school {
        School::Alteration => Icon::Alteration,
        School::Conjuration => Icon::Conjuration,
        School::Destruction => Icon::Destruction,
        School::Illusion => Icon::Illusion,
        School::Restoration => Icon::Restoration,
        School::NoSchool => Icon::IconDefault,
    }
}

/// The color of a magic school.
pub open spec fn school_color(school: School) -> InvColor {
    match school {
        School::Alteration => InvColor::Eldritch,
        School::Conjuration => InvColor::Silver,
        School::Destruction => InvColor::Fire,
        School::Illusion => InvColor::Blue,
        School::Restoration => InvColor::Green,
        School::NoSchool => InvColor::White,
    }
}

impl SpellType {
    /// Classify a spell: the icon of its school, and the color of the first
    /// color keyword, else the color of its school.
    pub fn new(data: SpellData, tags: Vec<String>) -> (r: Self)
        ensures
            r.icon == school_icon(data.school),
            r.color == match first_keyword_color(tags@.map_values(|k: String| k@)) {
                Some(c) => c,
                None => school_color(data.school),
            },
            r.data == data,
    {
        let icon = match data.school {
            School::Alteration => Icon::Alteration,
            School::Conjuration => Icon::Conjuration,
            School::Destruction => Icon::Destruction,
            School::Illusion => Icon::Illusion,
            School::Restoration => Icon::Restoration,
            School::NoSchool => Icon::IconDefault,
        };
        let color = if let Some(c) = keyword_color_of(tags.as_slice()) {
            c
        } else {
            match data.school {
                School::Alteration => InvColor::Eldritch,
                School::Conjuration => InvColor::Silver,
                School::Destruction => InvColor::Fire,
                School::Illusion => InvColor::Blue,
                School::Restoration => InvColor::Green,
                School::NoSchool => InvColor::White,
            }
        };
        Self { icon, color, data }
    }

    /// Whether the spell is cast with both hands.
    pub fn is_two_handed(&self) -> (r: bool)
        ensures
            r == self.data.twohanded,
    {
        self.data.twohanded
    }

    /// The icon of the magic school, or the fallback of the spell icon when
    /// the spell has no school.
    pub open spec fn spec_icon_fallback(self) -> Icon {
        match self.data.school {
            School::NoSchool => self.icon.spec_fallback(),
            s => school_icon(s),
        }
    }

    /// The icon to use when the spell icon is missing.
    pub fn icon_fallback(&self) -> (r: Icon)
        ensures
            r == self.spec_icon_fallback(),
    {
        match self.data.school {
            School::Alteration => Icon::Alteration,
            School::Conjuration => Icon::Conjuration,
            School::Destruction => Icon::Destruction,
            School::Illusion => Icon::Illusion,
            School::Restoration => Icon::Restoration,
            School::NoSchool => self.icon.fallback(),
        }
    }
}

impl HasIcon for SpellType {
    fn icon(&self) -> (r: &Icon)
        ensures
            *r == self.icon,
    {
        &self.icon
    }

    fn color(&self) -> (r: Color)
        ensures
            r == self.color.spec_color(),
    {
        self.color.color()
    }
}

} // verus!
