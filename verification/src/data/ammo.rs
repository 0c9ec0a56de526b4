//! Known ammunition variants. These correspond with OCF keywords; the
//! variants map directly to icons, and an OCF color keyword gives the color.

use vstd::prelude::*;

use super::color::{first_keyword_color, keyword_color_of, InvColor};
use super::{HasIcon, HasKeywords};
use crate::images::icons::Icon;
use crate::plugin::Color;

verus! {

/// An ammunition kind and the color to draw it with.
#[derive(Clone, Copy, Debug, PartialEq, Eq, Hash, Structural)]
pub enum AmmoType {
    Arrow(InvColor),
    BodkinArrow(InvColor),
    Bolt(InvColor),
    BroadheadArrow(InvColor),
    Bullet(InvColor),
    CrescentArrow(InvColor),
    Dart(InvColor),
    FireArrow(InvColor),
    Grenade(InvColor),
    HammerheadArrow(InvColor),
    Melee(InvColor),
    PracticeArrow(InvColor),
    Slingshot(InvColor),
    WhistleArrow(InvColor),
}

/// The default ammunition is an arrow drawn in white.
impl Default for AmmoType {
    fn default() -> (r: Self)
        ensures
            r == AmmoType::Arrow(InvColor::White),
    {
        AmmoType::Arrow(InvColor::White)
    }
}

/// The ammunition a single keyword names, drawn with `color` when there is
/// a color keyword; fire arrows default to fire, everything else to white.
pub open spec fn ammo_for_keyword(keyword: Seq<char>, color: Option<InvColor>) -> Option<AmmoType> {
    let c = match color {
        Some(c) => c,
        None => InvColor::White,
    };
    if keyword == "ArrowBodkin"@ {
        Some(AmmoType::BodkinArrow(c))
    }
    else if keyword == "ArrowBroadhead"@ {
        Some(AmmoType::BroadheadArrow(c))
    }
    else if keyword == "ArrowHammer"@ {
        Some(AmmoType::HammerheadArrow(c))
    }
    else if keyword == "ArrowCrescent"@ {
        Some(AmmoType::CrescentArrow(c))
    }
    else if keyword == "ArrowFire"@ {
        Some(AmmoType::FireArrow(match color { Some(c) => c, None => InvColor::Fire }))
    }
    else if keyword == "ArrowWhistle"@ {
        Some(AmmoType::WhistleArrow(c))
    }
    else if keyword == "ArrowPractice"@ {
        Some(AmmoType::PracticeArrow(c))
    }
    else if keyword == "OCF_AmmoTypeArrow"@ {
        Some(AmmoType::Arrow(c))
    }
    else if keyword == "OCF_AmmoTypeBolt"@ {
        Some(AmmoType::Bolt(c))
    }
    else if keyword == "OCF_AmmoTypeBullet"@ {
        Some(AmmoType::Bullet(c))
    }
    else if keyword == "OCF_AmmoTypeDart"@ {
        Some(AmmoType::Dart(c))
    }
    else if keyword == "OCF_AmmoTypeSlingshot"@ {
        Some(AmmoType::Slingshot(c))
    }
    else if keyword == "OCF_WeapTypeMelee"@ {
        Some(AmmoType::Melee(c))
    }
    else if keyword == "WAF_WeapTypeGrenade"@ {
        Some(AmmoType::Grenade(c))
    }
    else {
        None
    }
}

/// The ammunition named by the first keyword that names one.
pub open spec fn first_ammo(keywords: Seq<Seq<char>>, color: Option<InvColor>) -> Option<AmmoType>
    decreases keywords.len(),
{
    if keywords.len() == 0 {
        None
    } else {
        match ammo_for_keyword(keywords[0], color) {
            Some(a) => Some(a),
            None => first_ammo(keywords.skip(1), color),
        }
    }
}

fn ammo_for(keyword: &String, color: Option<InvColor>) -> (r: Option<AmmoType>)
    ensures
        r == ammo_for_keyword(keyword@, color),
{
    let c = match color {
        Some(c) => c,
        None => InvColor::White,
    };
    if *keyword == String::from_str("ArrowBodkin") {
        Some(AmmoType::BodkinArrow(c))
    }
    else if *keyword == String::from_str("ArrowBroadhead") {
        Some(AmmoType::BroadheadArrow(c))
    }
    else if *keyword == String::from_str("ArrowHammer") {
        Some(AmmoType::HammerheadArrow(c))
    }
    else if *keyword == String::from_str("ArrowCrescent") {
        Some(AmmoType::CrescentArrow(c))
    }
    else if *keyword == String::from_str("ArrowFire") {
        Some(AmmoType::FireArrow(match color { Some(c) => c, None => InvColor::Fire }))
    }
    else if *keyword == String::from_str("ArrowWhistle") {
        Some(AmmoType::WhistleArrow(c))
    }
    else if *keyword == String::from_str("ArrowPractice") {
        Some(AmmoType::PracticeArrow(c))
    }
    else if *keyword == String::from_str("OCF_AmmoTypeArrow") {
        Some(AmmoType::Arrow(c))
    }
    else if *keyword == String::from_str("OCF_AmmoTypeBolt") {
        Some(AmmoType::Bolt(c))
    }
    else if *keyword == String::from_str("OCF_AmmoTypeBullet") {
        Some(AmmoType::Bullet(c))
    }
    else if *keyword == String::from_str("OCF_AmmoTypeDart") {
        Some(AmmoType::Dart(c))
    }
    else if *keyword == String::from_str("OCF_AmmoTypeSlingshot") {
        Some(AmmoType::Slingshot(c))
    }
    else if *keyword == String::from_str("OCF_WeapTypeMelee") {
        Some(AmmoType::Melee(c))
    }
    else if *keyword == String::from_str("WAF_WeapTypeGrenade") {
        Some(AmmoType::Grenade(c))
    }
    else {
        None
    }
}

impl AmmoType {
    /// The ammunition type for these keywords: the first keyword naming an
    /// ammunition kind decides, else an arrow; colored by the first color keyword.
    pub open spec fn spec_classify(keywords: Seq<Seq<char>>) -> AmmoType {
        match first_ammo(keywords, first_keyword_color(keywords)) {
            Some(a) => a,
            None => AmmoType::Arrow(
                match first_keyword_color(keywords) {
                    Some(c) => c,
                    None => InvColor::White,
                },
            ),
        }
    }

    /// The color part of the ammunition.
    pub open spec fn inv_color(self) -> InvColor {
        match self {
            AmmoType::Arrow(c) => c,
            AmmoType::BodkinArrow(c) => c,
            AmmoType::Bolt(c) => c,
            AmmoType::BroadheadArrow(c) => c,
            AmmoType::Bullet(c) => c,
            AmmoType::CrescentArrow(c) => c,
            AmmoType::Dart(c) => c,
            AmmoType::FireArrow(c) => c,
            AmmoType::Grenade(c) => c,
            AmmoType::HammerheadArrow(c) => c,
            AmmoType::Melee(c) => c,
            AmmoType::PracticeArrow(c) => c,
            AmmoType::Slingshot(c) => c,
            AmmoType::WhistleArrow(c) => c,
        }
    }

    /// The icon for each ammunition kind.
    pub open spec fn spec_icon(self) -> Icon {
        match self {
            AmmoType::BodkinArrow(_) => Icon::AmmoArrowBodkin,
            AmmoType::Bolt(_) => Icon::AmmoBolt,
            AmmoType::BroadheadArrow(_) => Icon::AmmoArrowBroadhead,
            AmmoType::Bullet(_) => Icon::AmmoBullet,
            AmmoType::CrescentArrow(_) => Icon::AmmoArrowCrescent,
            AmmoType::Dart(_) => Icon::AmmoDart,
            AmmoType::FireArrow(_) => Icon::AmmoArrowFire,
            AmmoType::HammerheadArrow(_) => Icon::AmmoArrowHammerhead,
            AmmoType::PracticeArrow(_) => Icon::AmmoArrowPractice,
            AmmoType::Slingshot(_) => Icon::AmmoSlingshot,
            AmmoType::WhistleArrow(_) => Icon::AmmoArrowWhistle,
            _ => Icon::AmmoArrow,
        }
    }
}

impl HasKeywords for AmmoType {
    /// Use OCF keywords to identify this ammunition type and map it to
    /// one of the enum variants.
    fn classify(_name: &str, keywords: Vec<String>, _ignored: bool) -> (r: Self)
        ensures
            r == AmmoType::spec_classify(keywords@.map_values(|k: String| k@)),
    {
        let color = keyword_color_of(keywords.as_slice());
        let ghost ks = keywords@.map_values(|k: String| k@);
        let mut i: usize = 0;
        assert(ks.skip(0) =~= ks);
        while i < keywords.len()
            invariant
                i <= keywords@.len(),
                ks == keywords@.map_values(|k: String| k@),
                color == first_keyword_color(ks),
                first_ammo(ks, color) == first_ammo(ks.skip(i as int), color),
            decreases keywords.len() - i,
        {
            assert(ks.skip(i as int).skip(1) =~= ks.skip(i + 1));
            assert(ks.skip(i as int)[0] == keywords@[i as int]@);
            if let Some(a) = ammo_for(&keywords[i], color) {
                return a;
            }
            i += 1;
        }
        assert(ks.skip(i as int).len() == 0);
        match color {
            Some(c) => AmmoType::Arrow(c),
            None => AmmoType::Arrow(InvColor::White),
        }
    }
}

impl HasIcon for AmmoType {
    fn color(&self) -> (r: Color)
        ensures
            r == self.inv_color().spec_color(),
    {
        match self {
            AmmoType::Arrow(c) => c.color(),
            AmmoType::BodkinArrow(c) => c.color(),
            AmmoType::Bolt(c) => c.color(),
            AmmoType::BroadheadArrow(c) => c.color(),
            AmmoType::Bullet(c) => c.color(),
            AmmoType::CrescentArrow(c) => c.color(),
            AmmoType::Dart(c) => c.color(),
            AmmoType::FireArrow(c) => c.color(),
            AmmoType::Grenade(c) => c.color(),
            AmmoType::HammerheadArrow(c) => c.color(),
            AmmoType::Melee(c) => c.color(),
            AmmoType::PracticeArrow(c) => c.color(),
            AmmoType::Slingshot(c) => c.color(),
            AmmoType::WhistleArrow(c) => c.color(),
        }
    }

    fn icon(&self) -> (r: &Icon)
        ensures
            *r == self.spec_icon(),
    {
        match self {
            AmmoType::BodkinArrow(_) => &Icon::AmmoArrowBodkin,
            AmmoType::Bolt(_) => &Icon::AmmoBolt,
            AmmoType::BroadheadArrow(_) => &Icon::AmmoArrowBroadhead,
            AmmoType::Bullet(_) => &Icon::AmmoBullet,
            AmmoType::CrescentArrow(_) => &Icon::AmmoArrowCrescent,
            AmmoType::Dart(_) => &Icon::AmmoDart,
            AmmoType::FireArrow(_) => &Icon::AmmoArrowFire,
            AmmoType::HammerheadArrow(_) => &Icon::AmmoArrowHammerhead,
            AmmoType::PracticeArrow(_) => &Icon::AmmoArrowPractice,
            AmmoType::Slingshot(_) => &Icon::AmmoSlingshot,
            AmmoType::WhistleArrow(_) => &Icon::AmmoArrowWhistle,
            _ => &Icon::AmmoArrow,
        }
    }
}

} // verus!
