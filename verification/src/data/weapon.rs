//! Weapon keywords and classification.
//!
//! Keywords are grouped into sets for each weapon type we have an icon for.
//! Mod-added weapon categories are tried first; the vanilla types are
//! checked last as fallbacks, because mod-added weapons might carry both
//! very specific keywords and vanilla ones.

use vstd::prelude::*;

use super::color::{color_from_keywords, first_keyword_color, InvColor};
use super::{HasIcon, HasKeywords};
use crate::images::icons::Icon;
use crate::plugin::Color;

verus! {

/// How a weapon is held.
#[derive(Clone, Copy, Debug, PartialEq, Eq, Hash, Structural)]
pub enum WeaponEquipType {
    TwoHanded,
    LeftHand,
    RightHand,
    EitherHand,
}

impl vstd::std_specs::convert::FromSpecImpl<i32> for WeaponEquipType {
    open spec fn obeys_from_spec() -> bool {
        true
    }

    open spec fn from_spec(v: i32) -> WeaponEquipType {
        if v == 0 {
            WeaponEquipType::TwoHanded
        } else if v == 1 {
            WeaponEquipType::LeftHand
        } else if v == 2 {
            WeaponEquipType::RightHand
        } else {
            WeaponEquipType::EitherHand
        }
    }
}

impl From<i32> for WeaponEquipType {
    fn from(value: i32) -> (r: WeaponEquipType) {
        match value {
            0 => WeaponEquipType::TwoHanded,
            1 => WeaponEquipType::LeftHand,
            2 => WeaponEquipType::RightHand,
            _ => WeaponEquipType::EitherHand,
        }
    }
}

/// A classified weapon: its icon, its color and how it is held.
#[derive(Clone, Copy, Debug, PartialEq, Eq, Hash, Structural)]
pub struct WeaponType {
    pub icon: Icon,
    pub color: InvColor,
    pub equiptype: WeaponEquipType,
}

impl WeaponType {
    /// Build a weapon type from its parts.
    pub fn new(icon: Icon, color: InvColor, equiptype: WeaponEquipType) -> (r: Self)
        ensures
            r == (WeaponType { icon, color, equiptype }),
    {
        Self { icon, color, equiptype }
    }

    /// The weapon may go in the left hand: left-handed or either-handed weapons.
    pub open spec fn spec_left_hand_ok(self) -> bool {
        self.equiptype is LeftHand || self.equiptype is EitherHand
    }

    /// The weapon may go in the right hand: everything but left-handed weapons.
    pub open spec fn spec_right_hand_ok(self) -> bool {
        self.equiptype is RightHand || self.equiptype is EitherHand || self.equiptype is TwoHanded
    }

    /// The weapon is held in one hand.
    pub open spec fn spec_is_one_handed(self) -> bool {
        self.equiptype is LeftHand || self.equiptype is RightHand || self.equiptype is EitherHand
    }

    /// Whether the weapon may go in the left hand.
    pub fn left_hand_ok(&self) -> (r: bool)
        ensures
            r == self.spec_left_hand_ok(),
    {
        matches!(self.equiptype, WeaponEquipType::LeftHand | WeaponEquipType::EitherHand)
    }

    /// Whether the weapon may go in the right hand.
    pub fn right_hand_ok(&self) -> (r: bool)
        ensures
            r == self.spec_right_hand_ok(),
    {
        matches!(
            self.equiptype,
            WeaponEquipType::RightHand | WeaponEquipType::EitherHand | WeaponEquipType::TwoHanded
        )
    }

    /// Whether the weapon is held in one hand.
    pub fn is_one_handed(&self) -> (r: bool)
        ensures
            r == self.spec_is_one_handed(),
    {
        matches!(
            self.equiptype,
            WeaponEquipType::LeftHand | WeaponEquipType::RightHand | WeaponEquipType::EitherHand
        )
    }

    /// Whether the weapon needs both hands.
    pub fn is_two_handed(&self) -> (r: bool)
        ensures
            r == (self.equiptype is TwoHanded),
    {
        matches!(self.equiptype, WeaponEquipType::TwoHanded)
    }
}

impl Default for WeaponType {
    fn default() -> (r: Self)
        ensures
            r == (WeaponType {
                icon: Icon::WeaponSwordOneHanded,
                color: InvColor::White,
                equiptype: WeaponEquipType::EitherHand,
            }),
    {
        WeaponType::new(Icon::WeaponSwordOneHanded, InvColor::White, WeaponEquipType::EitherHand)
    }
}

/// Groups of weapon keywords, one per weapon icon.
#[derive(Clone, Copy, Debug, PartialEq, Eq, Hash, Structural)]
pub enum WeaponGroup {
    Guns,
    Hammers,
    Halberds,
    HandToHand,
    Katanas,
    Lances,
    Pikes,
    Quarterstaves,
    Rapiers,
    Scythes,
    Staves,
    Whips,
    WoodAxes,
    Pickaxes,
    FishingRods,
    Claws,
    Flails,
    Bombs,
    Battleaxes,
    Bows,
    Crossbows,
    Daggers,
    Greatswords,
    Maces,
    Swords,
    Waraxes,
}

/// Whether `keyword` is one of the keywords of group `g`.
pub open spec fn in_weapon_group(g: WeaponGroup, keyword: Seq<char>) -> bool {
    match g {
        WeaponGroup::Guns => keyword == "WeapTypeGun"@ || keyword == "OCF_WeapTypeGun"@ || keyword == "OCF_WeapTypeGun1H"@ || keyword == "OCF_WeapTypeGun2H"@ || keyword == "OCF_WeapTypeGun1H_Axe"@ || keyword == "OCF_WeapTypeGun1H_Basic"@ || keyword == "OCF_WeapTypeGun1H_Gravity"@ || keyword == "OCF_WeapTypeGun1H_Sword"@ || keyword == "OCF_WeapTypeGun2H_Basic"@ || keyword == "OCF_WeapTypeGun2H_Launcher"@ || keyword == "OCF_WeapTypeGun2H_Shotgun"@ || keyword == "OCF_WeapTypeGun2H_Spear"@ || keyword == "OCF_WeapTypeGun2H_Special"@,
        WeaponGroup::Hammers => keyword == "WeapTypeHammer"@ || keyword == "OCF_WeapTypeHammer1H"@ || keyword == "WeapTypeWarhammer"@ || keyword == "OCF_WeapTypeWarhammer2H"@,
        WeaponGroup::Halberds => keyword == "WeapTypeHalberd"@ || keyword == "OCF_WeapTypeGlaive1H"@ || keyword == "OCF_WeapTypeGlaive2H"@ || keyword == "OCF_WeapTypeHalberd1H"@ || keyword == "OCF_WeapTypeHalberd2H"@ || keyword == "OCF_WeapTypePole1H_Swing"@ || keyword == "OCF_WeapTypePole2H_Swing"@,
        WeaponGroup::HandToHand => keyword == "HandToHandMelee"@ || keyword == "OCF_WeapTypeUnarmed"@,
        WeaponGroup::Katanas => keyword == "OCF_WeapTypeKatana1H"@ || keyword == "OCF_WeapTypeKatana2H"@,
        WeaponGroup::Lances => keyword == "WeapTypeLance"@ || keyword == "OCF_WeapTypeJavelin1H"@ || keyword == "OCF_WeapTypeJavelin2H"@ || keyword == "OCF_WeapTypeLance1H"@ || keyword == "OCF_WeapTypeLance2H"@ || keyword == "OCF_WeapTypePole1H_Thrust"@ || keyword == "OCF_WeapTypePole2H_Thrust"@ || keyword == "OCF_WeapTypeSpear1H"@ || keyword == "OCF_WeapTypeSpear2H"@ || keyword == "OCF_WeapTypeTrident1H"@ || keyword == "OCF_WeapTypeTrident2H"@,
        WeaponGroup::Pikes => keyword == "OCF_WeapTypePike"@ || keyword == "OCF_WeapTypePike1H"@ || keyword == "OCF_WeapTypePike2H"@ || keyword == "WeapTypePike"@ || keyword == "BoobiesWeapTypePike"@,
        WeaponGroup::Quarterstaves => keyword == "WeapTypeQtrStaff"@ || keyword == "OCF_WeapTypeQuarterstaff1H"@,
        WeaponGroup::Rapiers => keyword == "OCF_WeapTypeRapier1H"@ || keyword == "OCF_WeapTypeRapier2H"@,
        WeaponGroup::Scythes => keyword == "WeapTypeScythe"@ || keyword == "OCF_WeapTypeWarscythe1H"@ || keyword == "OCF_WeapTypeWarscythe2H"@ || keyword == "OCF_WeapTypeScythe2H"@ || keyword == "OCF_WeapTypeScythe1H"@,
        WeaponGroup::Staves => keyword == "Staff"@ || keyword == "WeapTypeStaff"@ || keyword == "OCF_WeapTypeBlankStaff"@,
        WeaponGroup::Whips => keyword == "OCF_WeapTypeWhip1H"@ || keyword == "WeapTypeWhip"@,
        WeaponGroup::WoodAxes => keyword == "OCF_WeapTypeWoodaxe1H"@ || keyword == "OCF_WeapTypeWoodHatchet1H"@,
        WeaponGroup::Pickaxes => keyword == "OCF_WeapTypePickaxe1H"@ || keyword == "OCF_WeapTypePickaxe2H"@,
        WeaponGroup::FishingRods => keyword == "OCF_WeapTypeFishingRod1H"@,
        WeaponGroup::Claws => keyword == "WeapTypeClaw"@ || keyword == "OCF_WeapTypeClaw1H"@,
        WeaponGroup::Flails => keyword == "WeapTypeFlail"@,
        WeaponGroup::Bombs => keyword == "WAF_WeapTypeGrenade"@,
        WeaponGroup::Battleaxes => keyword == "WeapTypeAxeTwoHanded"@ || keyword == "WeapTypeBattleaxe"@ || keyword == "OCF_WeapTypeBattleaxe2H"@ || keyword == "OCF_WeapTypeWarpick2H"@,
        WeaponGroup::Bows => keyword == "OCF_WeapTypeBlowgun2H"@ || keyword == "OCF_WeapTypeBow"@ || keyword == "OCF_WeapTypeBow2H"@ || keyword == "OCF_WeapTypeGun"@ || keyword == "OCF_WeapTypeSlingshot2H"@ || keyword == "OCF_WeapTypeGreatbow2H"@,
        WeaponGroup::Crossbows => keyword == "WeapTypeCrossbow"@ || keyword == "OCF_WeapTypeCrossbow"@ || keyword == "OCF_WeapTypeCrossbow1H"@ || keyword == "OCF_WeapTypeCrossbow2H"@,
        WeaponGroup::Daggers => keyword == "OCF_WeapTypeChakram1H"@ || keyword == "OCF_WeapTypeCutlery1H"@ || keyword == "OCF_WeapTypeDagger1H"@ || keyword == "OCF_WeapTypeKunai1H"@ || keyword == "OCF_WeapTypeRevDagger1H"@ || keyword == "OCF_WeapTypeSai1H"@ || keyword == "OCF_WeapTypeShiv1H"@ || keyword == "OCF_WeapTypeShuriken1H"@ || keyword == "OCF_WeapTypeTanto1H"@ || keyword == "OCF_WeapTypeToolKnife1H"@ || keyword == "OCF_WeapTypeHuntingKnife1H"@ || keyword == "WAF_WeapTypeScalpel"@ || keyword == "OCF_WeapTypeTwinDagger1H"@,
        WeaponGroup::Greatswords => keyword == "OCF_WeapTypeMassiveSword2H"@ || keyword == "OCF_WeapTypeSaber2H"@ || keyword == "OCF_WeapTypeScimitar2H"@ || keyword == "OCF_WeapTypeTwinblade2H"@ || keyword == "OCF_WeapTypeCleaver2H"@ || keyword == "OCF_WeapTypeGreatsword2H"@ || keyword == "OCF_WeapTypeLightsaber2H"@ || keyword == "OCF_WeapTypeLongsword2H"@,
        WeaponGroup::Maces => keyword == "OCF_WeapTypeBoomerang1H"@ || keyword == "OCF_WeapTypeCestus1H"@ || keyword == "OCF_WeapTypeClub1H"@ || keyword == "OCF_WeapTypeMace1H"@ || keyword == "OCF_WeapTypeClub2H"@ || keyword == "OCF_WeapTypeMace2H"@,
        WeaponGroup::Swords => keyword == "OCF_WeapTypeSaber1H"@ || keyword == "OCF_WeapTypeScimitar1H"@ || keyword == "OCF_WeapTypeSword1H"@ || keyword == "OCF_WeapTypeTwinblade1H"@ || keyword == "OCF_WeapTypeLightsaber1H"@,
        WeaponGroup::Waraxes => keyword == "OCF_WeapTypeCleaver1H"@ || keyword == "OCF_WeapTypeCrescent1H"@ || keyword == "OCF_WeapTypeHandBlade1H"@ || keyword == "OCF_WeapTypeHatchet1H"@ || keyword == "OCF_WeapTypeSickle1H"@ || keyword == "OCF_WeapTypeWarAxe1H"@ || keyword == "OCF_WeapTypeWarpick1H"@,
    }
}

/// Whether `keyword` is one of the keywords of group `g`.
pub fn is_in_weapon_group(g: WeaponGroup, keyword: &String) -> (r: bool)
    ensures
        r == in_weapon_group(g, keyword@),
{
    match g {
        WeaponGroup::Guns => *keyword == String::from_str("WeapTypeGun") || *keyword == String::from_str("OCF_WeapTypeGun") || *keyword == String::from_str("OCF_WeapTypeGun1H") || *keyword == String::from_str("OCF_WeapTypeGun2H") || *keyword == String::from_str("OCF_WeapTypeGun1H_Axe") || *keyword == String::from_str("OCF_WeapTypeGun1H_Basic") || *keyword == String::from_str("OCF_WeapTypeGun1H_Gravity") || *keyword == String::from_str("OCF_WeapTypeGun1H_Sword") || *keyword == String::from_str("OCF_WeapTypeGun2H_Basic") || *keyword == String::from_str("OCF_WeapTypeGun2H_Launcher") || *keyword == String::from_str("OCF_WeapTypeGun2H_Shotgun") || *keyword == String::from_str("OCF_WeapTypeGun2H_Spear") || *keyword == String::from_str("OCF_WeapTypeGun2H_Special"),
        WeaponGroup::Hammers => *keyword == String::from_str("WeapTypeHammer") || *keyword == String::from_str("OCF_WeapTypeHammer1H") || *keyword == String::from_str("WeapTypeWarhammer") || *keyword == String::from_str("OCF_WeapTypeWarhammer2H"),
        WeaponGroup::Halberds => *keyword == String::from_str("WeapTypeHalberd") || *keyword == String::from_str("OCF_WeapTypeGlaive1H") || *keyword == String::from_str("OCF_WeapTypeGlaive2H") || *keyword == String::from_str("OCF_WeapTypeHalberd1H") || *keyword == String::from_str("OCF_WeapTypeHalberd2H") || *keyword == String::from_str("OCF_WeapTypePole1H_Swing") || *keyword == String::from_str("OCF_WeapTypePole2H_Swing"),
        WeaponGroup::HandToHand => *keyword == String::from_str("HandToHandMelee") || *keyword == String::from_str("OCF_WeapTypeUnarmed"),
        WeaponGroup::Katanas => *keyword == String::from_str("OCF_WeapTypeKatana1H") || *keyword == String::from_str("OCF_WeapTypeKatana2H"),
        WeaponGroup::Lances => *keyword == String::from_str("WeapTypeLance") || *keyword == String::from_str("OCF_WeapTypeJavelin1H") || *keyword == String::from_str("OCF_WeapTypeJavelin2H") || *keyword == String::from_str("OCF_WeapTypeLance1H") || *keyword == String::from_str("OCF_WeapTypeLance2H") || *keyword == String::from_str("OCF_WeapTypePole1H_Thrust") || *keyword == String::from_str("OCF_WeapTypePole2H_Thrust") || *keyword == String::from_str("OCF_WeapTypeSpear1H") || *keyword == String::from_str("OCF_WeapTypeSpear2H") || *keyword == String::from_str("OCF_WeapTypeTrident1H") || *keyword == String::from_str("OCF_WeapTypeTrident2H"),
        WeaponGroup::Pikes => *keyword == String::from_str("OCF_WeapTypePike") || *keyword == String::from_str("OCF_WeapTypePike1H") || *keyword == String::from_str("OCF_WeapTypePike2H") || *keyword == String::from_str("WeapTypePike") || *keyword == String::from_str("BoobiesWeapTypePike"),
        WeaponGroup::Quarterstaves => *keyword == String::from_str("WeapTypeQtrStaff") || *keyword == String::from_str("OCF_WeapTypeQuarterstaff1H"),
        WeaponGroup::Rapiers => *keyword == String::from_str("OCF_WeapTypeRapier1H") || *keyword == String::from_str("OCF_WeapTypeRapier2H"),
        WeaponGroup::Scythes => *keyword == String::from_str("WeapTypeScythe") || *keyword == String::from_str("OCF_WeapTypeWarscythe1H") || *keyword == String::from_str("OCF_WeapTypeWarscythe2H") || *keyword == String::from_str("OCF_WeapTypeScythe2H") || *keyword == String::from_str("OCF_WeapTypeScythe1H"),
        WeaponGroup::Staves => *keyword == String::from_str("Staff") || *keyword == String::from_str("WeapTypeStaff") || *keyword == String::from_str("OCF_WeapTypeBlankStaff"),
        WeaponGroup::Whips => *keyword == String::from_str("OCF_WeapTypeWhip1H") || *keyword == String::from_str("WeapTypeWhip"),
        WeaponGroup::WoodAxes => *keyword == String::from_str("OCF_WeapTypeWoodaxe1H") || *keyword == String::from_str("OCF_WeapTypeWoodHatchet1H"),
        WeaponGroup::Pickaxes => *keyword == String::from_str("OCF_WeapTypePickaxe1H") || *keyword == String::from_str("OCF_WeapTypePickaxe2H"),
        WeaponGroup::FishingRods => *keyword == String::from_str("OCF_WeapTypeFishingRod1H"),
        WeaponGroup::Claws => *keyword == String::from_str("WeapTypeClaw") || *keyword == String::from_str("OCF_WeapTypeClaw1H"),
        WeaponGroup::Flails => *keyword == String::from_str("WeapTypeFlail"),
        WeaponGroup::Bombs => *keyword == String::from_str("WAF_WeapTypeGrenade"),
        WeaponGroup::Battleaxes => *keyword == String::from_str("WeapTypeAxeTwoHanded") || *keyword == String::from_str("WeapTypeBattleaxe") || *keyword == String::from_str("OCF_WeapTypeBattleaxe2H") || *keyword == String::from_str("OCF_WeapTypeWarpick2H"),
        WeaponGroup::Bows => *keyword == String::from_str("OCF_WeapTypeBlowgun2H") || *keyword == String::from_str("OCF_WeapTypeBow") || *keyword == String::from_str("OCF_WeapTypeBow2H") || *keyword == String::from_str("OCF_WeapTypeGun") || *keyword == String::from_str("OCF_WeapTypeSlingshot2H") || *keyword == String::from_str("OCF_WeapTypeGreatbow2H"),
        WeaponGroup::Crossbows => *keyword == String::from_str("WeapTypeCrossbow") || *keyword == String::from_str("OCF_WeapTypeCrossbow") || *keyword == String::from_str("OCF_WeapTypeCrossbow1H") || *keyword == String::from_str("OCF_WeapTypeCrossbow2H"),
        WeaponGroup::Daggers => *keyword == String::from_str("OCF_WeapTypeChakram1H") || *keyword == String::from_str("OCF_WeapTypeCutlery1H") || *keyword == String::from_str("OCF_WeapTypeDagger1H") || *keyword == String::from_str("OCF_WeapTypeKunai1H") || *keyword == String::from_str("OCF_WeapTypeRevDagger1H") || *keyword == String::from_str("OCF_WeapTypeSai1H") || *keyword == String::from_str("OCF_WeapTypeShiv1H") || *keyword == String::from_str("OCF_WeapTypeShuriken1H") || *keyword == String::from_str("OCF_WeapTypeTanto1H") || *keyword == String::from_str("OCF_WeapTypeToolKnife1H") || *keyword == String::from_str("OCF_WeapTypeHuntingKnife1H") || *keyword == String::from_str("WAF_WeapTypeScalpel") || *keyword == String::from_str("OCF_WeapTypeTwinDagger1H"),
        WeaponGroup::Greatswords => *keyword == String::from_str("OCF_WeapTypeMassiveSword2H") || *keyword == String::from_str("OCF_WeapTypeSaber2H") || *keyword == String::from_str("OCF_WeapTypeScimitar2H") || *keyword == String::from_str("OCF_WeapTypeTwinblade2H") || *keyword == String::from_str("OCF_WeapTypeCleaver2H") || *keyword == String::from_str("OCF_WeapTypeGreatsword2H") || *keyword == String::from_str("OCF_WeapTypeLightsaber2H") || *keyword == String::from_str("OCF_WeapTypeLongsword2H"),
        WeaponGroup::Maces => *keyword == String::from_str("OCF_WeapTypeBoomerang1H") || *keyword == String::from_str("OCF_WeapTypeCestus1H") || *keyword == String::from_str("OCF_WeapTypeClub1H") || *keyword == String::from_str("OCF_WeapTypeMace1H") || *keyword == String::from_str("OCF_WeapTypeClub2H") || *keyword == String::from_str("OCF_WeapTypeMace2H"),
        WeaponGroup::Swords => *keyword == String::from_str("OCF_WeapTypeSaber1H") || *keyword == String::from_str("OCF_WeapTypeScimitar1H") || *keyword == String::from_str("OCF_WeapTypeSword1H") || *keyword == String::from_str("OCF_WeapTypeTwinblade1H") || *keyword == String::from_str("OCF_WeapTypeLightsaber1H"),
        WeaponGroup::Waraxes => *keyword == String::from_str("OCF_WeapTypeCleaver1H") || *keyword == String::from_str("OCF_WeapTypeCrescent1H") || *keyword == String::from_str("OCF_WeapTypeHandBlade1H") || *keyword == String::from_str("OCF_WeapTypeHatchet1H") || *keyword == String::from_str("OCF_WeapTypeSickle1H") || *keyword == String::from_str("OCF_WeapTypeWarAxe1H") || *keyword == String::from_str("OCF_WeapTypeWarpick1H"),
    }
}

/// Whether some keyword belongs to group `g`.
pub open spec fn has_weapon_group(keywords: Seq<Seq<char>>, g: WeaponGroup) -> bool {
    exists|i: int| 0 <= i < keywords.len() && #[trigger] in_weapon_group(g, keywords[i])
}

/// Whether some keyword belongs to group `g`.
pub fn any_in_weapon_group(keywords: &[String], g: WeaponGroup) -> (r: bool)
    ensures
        r == has_weapon_group(keywords@.map_values(|k: String| k@), g),
{
    let ghost ks = keywords@.map_values(|k: String| k@);
    let mut i: usize = 0;
    while i < keywords.len()
        invariant
            i <= keywords@.len(),
            ks == keywords@.map_values(|k: String| k@),
            forall|j: int| 0 <= j < i ==> !#[trigger] in_weapon_group(g, ks[j]),
        decreases keywords.len() - i,
    {
        if is_in_weapon_group(g, &keywords[i]) {
            assert(in_weapon_group(g, ks[i as int]));
            return true;
        }
        i += 1;
    }
    false
}

/// The icon for a weapon with these keywords: the first group, in priority order, that
/// some keyword belongs to; a one-handed sword when none does.
pub open spec fn weapon_icon(keywords: Seq<Seq<char>>) -> Icon {
    if has_weapon_group(keywords, WeaponGroup::Guns) {
        Icon::WeaponGun
    }
    else if has_weapon_group(keywords, WeaponGroup::Hammers) {
        Icon::WeaponHammer
    }
    else if has_weapon_group(keywords, WeaponGroup::Halberds) {
        Icon::WeaponHalberd
    }
    else if has_weapon_group(keywords, WeaponGroup::HandToHand) {
        Icon::HandToHand
    }
    else if has_weapon_group(keywords, WeaponGroup::Katanas) {
        Icon::WeaponKatana
    }
    else if has_weapon_group(keywords, WeaponGroup::Lances) {
        Icon::WeaponLance
    }
    else if has_weapon_group(keywords, WeaponGroup::Pikes) {
        Icon::WeaponPike
    }
    else if has_weapon_group(keywords, WeaponGroup::Quarterstaves) {
        Icon::WeaponQuarterstaff
    }
    else if has_weapon_group(keywords, WeaponGroup::Rapiers) {
        Icon::WeaponRapier
    }
    else if has_weapon_group(keywords, WeaponGroup::Scythes) {
        Icon::WeaponScythe
    }
    else if has_weapon_group(keywords, WeaponGroup::Staves) {
        Icon::WeaponStaff
    }
    else if has_weapon_group(keywords, WeaponGroup::Whips) {
        Icon::WeaponWhip
    }
    else if has_weapon_group(keywords, WeaponGroup::WoodAxes) {
        Icon::WeaponWoodAxe
    }
    else if has_weapon_group(keywords, WeaponGroup::Pickaxes) {
        Icon::ToolPickaxe
    }
    else if has_weapon_group(keywords, WeaponGroup::FishingRods) {
        Icon::ToolFishingRod
    }
    else if has_weapon_group(keywords, WeaponGroup::Claws) {
        Icon::WeaponClaw
    }
    else if has_weapon_group(keywords, WeaponGroup::Flails) {
        Icon::WeaponFlail
    }
    else if has_weapon_group(keywords, WeaponGroup::Staves) {
        Icon::WeaponStaff
    }
    else if has_weapon_group(keywords, WeaponGroup::Bombs) {
        Icon::WeaponGrenade
    }
    else if has_weapon_group(keywords, WeaponGroup::Battleaxes) {
        Icon::WeaponAxeTwoHanded
    }
    else if has_weapon_group(keywords, WeaponGroup::Bows) {
        Icon::WeaponBow
    }
    else if has_weapon_group(keywords, WeaponGroup::Crossbows) {
        Icon::WeaponCrossbow
    }
    else if has_weapon_group(keywords, WeaponGroup::Daggers) {
        Icon::WeaponDagger
    }
    else if has_weapon_group(keywords, WeaponGroup::Greatswords) {
        Icon::WeaponSwordTwoHanded
    }
    else if has_weapon_group(keywords, WeaponGroup::Maces) {
        Icon::WeaponMace
    }
    else if has_weapon_group(keywords, WeaponGroup::Swords) {
        Icon::WeaponSwordOneHanded
    }
    else if has_weapon_group(keywords, WeaponGroup::Waraxes) {
        Icon::WeaponAxeOneHanded
    }
    else {
        Icon::WeaponSwordOneHanded
    }
}

fn icon_for_keywords(keywords: &[String]) -> (r: Icon)
    ensures
        r == weapon_icon(keywords@.map_values(|k: String| k@)),
{
    if any_in_weapon_group(keywords, WeaponGroup::Guns) {
        Icon::WeaponGun
    }
    else if any_in_weapon_group(keywords, WeaponGroup::Hammers) {
        Icon::WeaponHammer
    }
    else if any_in_weapon_group(keywords, WeaponGroup::Halberds) {
        Icon::WeaponHalberd
    }
    else if any_in_weapon_group(keywords, WeaponGroup::HandToHand) {
        Icon::HandToHand
    }
    else if any_in_weapon_group(keywords, WeaponGroup::Katanas) {
        Icon::WeaponKatana
    }
    else if any_in_weapon_group(keywords, WeaponGroup::Lances) {
        Icon::WeaponLance
    }
    else if any_in_weapon_group(keywords, WeaponGroup::Pikes) {
        Icon::WeaponPike
    }
    else if any_in_weapon_group(keywords, WeaponGroup::Quarterstaves) {
        Icon::WeaponQuarterstaff
    }
    else if any_in_weapon_group(keywords, WeaponGroup::Rapiers) {
        Icon::WeaponRapier
    }
    else if any_in_weapon_group(keywords, WeaponGroup::Scythes) {
        Icon::WeaponScythe
    }
    else if any_in_weapon_group(keywords, WeaponGroup::Staves) {
        Icon::WeaponStaff
    }
    else if any_in_weapon_group(keywords, WeaponGroup::Whips) {
        Icon::WeaponWhip
    }
    else if any_in_weapon_group(keywords, WeaponGroup::WoodAxes) {
        Icon::WeaponWoodAxe
    }
    else if any_in_weapon_group(keywords, WeaponGroup::Pickaxes) {
        Icon::ToolPickaxe
    }
    else if any_in_weapon_group(keywords, WeaponGroup::FishingRods) {
        Icon::ToolFishingRod
    }
    else if any_in_weapon_group(keywords, WeaponGroup::Claws) {
        Icon::WeaponClaw
    }
    else if any_in_weapon_group(keywords, WeaponGroup::Flails) {
        Icon::WeaponFlail
    }
    else if any_in_weapon_group(keywords, WeaponGroup::Staves) {
        Icon::WeaponStaff
    }
    else if any_in_weapon_group(keywords, WeaponGroup::Bombs) {
        Icon::WeaponGrenade
    }
    else if any_in_weapon_group(keywords, WeaponGroup::Battleaxes) {
        Icon::WeaponAxeTwoHanded
    }
    else if any_in_weapon_group(keywords, WeaponGroup::Bows) {
        Icon::WeaponBow
    }
    else if any_in_weapon_group(keywords, WeaponGroup::Crossbows) {
        Icon::WeaponCrossbow
    }
    else if any_in_weapon_group(keywords, WeaponGroup::Daggers) {
        Icon::WeaponDagger
    }
    else if any_in_weapon_group(keywords, WeaponGroup::Greatswords) {
        Icon::WeaponSwordTwoHanded
    }
    else if any_in_weapon_group(keywords, WeaponGroup::Maces) {
        Icon::WeaponMace
    }
    else if any_in_weapon_group(keywords, WeaponGroup::Swords) {
        Icon::WeaponSwordOneHanded
    }
    else if any_in_weapon_group(keywords, WeaponGroup::Waraxes) {
        Icon::WeaponAxeOneHanded
    }
    else {
        Icon::WeaponSwordOneHanded
    }
}

impl WeaponType {
    /// The weapon type for these keywords: the icon of `weapon_icon`, the
    /// color of the first color keyword (white when none), two-handed when
    /// the game says so and either-handed otherwise.
    pub open spec fn spec_classify(keywords: Seq<Seq<char>>, twohanded: bool) -> WeaponType {
        WeaponType {
            icon: weapon_icon(keywords),
            color: match first_keyword_color(keywords) {
                Some(c) => c,
                None => InvColor::White,
            },
            equiptype: if twohanded {
                WeaponEquipType::TwoHanded
            } else {
                WeaponEquipType::EitherHand
            },
        }
    }
}

impl HasKeywords for WeaponType {
    fn classify(name: &str, keywords: Vec<String>, twohanded: bool) -> (r: Self)
        ensures
            r == WeaponType::spec_classify(keywords@.map_values(|k: String| k@), twohanded),
    {
        let color = color_from_keywords(keywords.as_slice());
        let equiptype = if twohanded {
            WeaponEquipType::TwoHanded
        } else {
            WeaponEquipType::EitherHand
        };
        let icon = icon_for_keywords(keywords.as_slice());
        WeaponType::new(icon, color, equiptype)
    }
}

impl HasIcon for WeaponType {
    fn color(&self) -> (r: Color)
        ensures
            r == self.color.spec_color(),
    {
        self.color.color()
    }

    fn icon(&self) -> (r: &Icon)
        ensures
            *r == self.icon,
    {
        &self.icon
    }
}

} // verus!
