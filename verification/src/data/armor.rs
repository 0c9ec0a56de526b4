//! Armor keywords and classification.
//!
//! Keywords are grouped into sets for each armor slot and weight. The first
//! keyword that names a weight decides the weight, and the first keyword that
//! names a slot decides the slot; together they pick the icon.

use vstd::prelude::*;

use super::color::{color_from_keywords, first_keyword_color, InvColor};
use super::{HasIcon, HasKeywords};
use crate::images::icons::Icon;
use crate::plugin::Color;

verus! {

/// A classified piece of armor: its icon and its color.
#[derive(Clone, Copy, Debug, PartialEq, Eq, Hash, Structural)]
pub struct ArmorType {
    pub icon: Icon,
    pub color: InvColor,
}

/// How heavy a piece of armor is.
#[derive(Clone, Copy, Debug, PartialEq, Eq, Hash, Structural)]
pub enum ArmorWeight {
    Clothing,
    Light,
    Heavy,
}

/// Where a piece of armor is worn.
#[derive(Clone, Copy, Debug, PartialEq, Eq, Hash, Structural)]
pub enum ArmorSlot {
    Amulet,
    Circlet,
    Head,
    Hands,
    Body,
    Feet,
    Shield,
    Ring,
    Cloak,
    Mask,
    Belt,
    Lantern,
    Earring,
    Backpack,
}

/// Groups of armor keywords, for weights and for slots.
#[derive(Clone, Copy, Debug, PartialEq, Eq, Hash, Structural)]
pub enum ArmorGroup {
    Light,
    Heavy,
    Clothes,
    Amulets,
    Circlets,
    Head,
    Hands,
    Body,
    Feet,
    Shields,
    Rings,
    Cloaks,
    Masks,
    Belts,
    Lights,
    Jewelry,
    Backpacks,
}

/// Whether `keyword` is one of the keywords of group `g`.
pub open spec fn in_armor_group(g: ArmorGroup, keyword: Seq<char>) -> bool {
    match g {
        ArmorGroup::Light => keyword == "OCF_AccessoryShield_Light"@ || keyword == "OCF_ArmorBoots_Light"@ || keyword == "OCF_ArmorCuirass_Light"@ || keyword == "OCF_ArmorGauntlets_Light"@ || keyword == "OCF_ArmorHelmet_Light"@ || keyword == "OCF_ArmorShield_Light"@,
        ArmorGroup::Heavy => keyword == "OCF_ArmorBoots_Heavy"@ || keyword == "OCF_ArmorCuirass_Heavy"@ || keyword == "OCF_ArmorGauntlets_Heavy"@ || keyword == "OCF_ArmorHelmet_Heavy"@ || keyword == "OCF_ArmorShield_Heavy"@,
        ArmorGroup::Clothes => keyword == "ArmorClothing"@ || keyword == "ClothingBody"@ || keyword == "ClothingCirclet"@ || keyword == "ClothingCrown"@ || keyword == "ClothingEarrings"@ || keyword == "ClothingFeet"@ || keyword == "ClothingHands"@ || keyword == "ClothingNecklace"@ || keyword == "ClothingPanties"@ || keyword == "ClothingRing"@ || keyword == "ClothingStrapOn"@ || keyword == "FrostfallIsCloakCloth"@ || keyword == "VendorItemClothing"@ || keyword == "WAF_ClothingAccessories"@ || keyword == "WAF_ClothingCloak"@ || keyword == "WAF_ClothingMedicalHealing"@ || keyword == "WAF_ClothingPouch"@,
        ArmorGroup::Amulets => keyword == "ClothingNecklace"@ || keyword == "OCF_ArtifactAedric_AmuletKings"@ || keyword == "OCF_ArtifactDaedric_SanctuaryAmulet"@ || keyword == "OCF_ArtifactLegendary_GaulderAmulet"@ || keyword == "OCF_ArtifactLegendary_NecromancerAmulet"@ || keyword == "OCF_ReplicaAedric_AmuletKings"@ || keyword == "OCF_ReplicaDaedric_SanctuaryAmulet"@ || keyword == "OCF_ReplicaLegendary_GaulderAmulet"@ || keyword == "OCF_ReplicaLegendary_NecromancerAmulet"@,
        ArmorGroup::Circlets => keyword == "ArmorCrown"@ || keyword == "ClothingCirclet"@ || keyword == "ClothingCrown"@ || keyword == "OCF_ArtifactDwarven_AetherialCrown"@ || keyword == "OCF_ArtifactLegendary_JaggedCrown"@ || keyword == "OCF_ReplicaDwarven_AetherialCrown"@ || keyword == "OCF_ReplicaLegendary_JaggedCrown"@ || keyword == "OCF_ArtifactDaedric_Nightingale"@,
        ArmorGroup::Head => keyword == "ArmorHelmet"@ || keyword == "OCF_ArmorHelmet_Heavy"@ || keyword == "OCF_ArmorHelmet_Light"@ || keyword == "OCF_ArmorHelmet_Medium"@ || keyword == "OCF_ArmorTypeHead"@ || keyword == "OCF_ArmorTypeHead_Alt"@ || keyword == "OCF_ArmorTypeHead_Main"@ || keyword == "OCF_ArtifactAedric_CrusaderHelm"@ || keyword == "OCF_ArtifactDaedric_NightingaleHelmet"@ || keyword == "OCF_ArtifactLegendary_AdamantiumHelmTohan"@ || keyword == "OCF_ArtifactLegendary_BloodwormHelm"@ || keyword == "OCF_ArtifactLegendary_HelmOreynBearclaw"@ || keyword == "OCF_ArtifactLegendary_HelmTiberSeptim"@ || keyword == "OCF_HeadTypeBandage"@ || keyword == "OCF_HeadTypeBandana"@ || keyword == "OCF_HeadTypeBarrette"@ || keyword == "OCF_HeadTypeBlindfold"@ || keyword == "OCF_HeadTypeEarsReal"@ || keyword == "OCF_HeadTypeEyePatch"@ || keyword == "OCF_HeadTypeGag"@ || keyword == "OCF_HeadTypeGoggles"@ || keyword == "OCF_HeadTypeHalo"@ || keyword == "OCF_HeadTypeHat"@ || keyword == "OCF_HeadTypeHood"@ || keyword == "OCF_HeadTypeHorns"@ || keyword == "OCF_HeadTypeHornsAntlers"@ || keyword == "OCF_HeadTypeWig"@ || keyword == "OCF_ReplicaAedric_CrusaderHelm"@ || keyword == "OCF_ReplicaDaedric_NightingaleHelmet"@ || keyword == "OCF_ReplicaLegendary_AdamantiumHelmTohan"@ || keyword == "OCF_ReplicaLegendary_BloodwormHelm"@ || keyword == "OCF_ReplicaLegendary_HelmOreynBearclaw"@ || keyword == "OCF_ReplicaLegendary_HelmTiberSeptim"@ || keyword == "OCF_ArtifactDaedric_GrayCowlNocturnal"@ || keyword == "ClavicusVileMask"@ || keyword == "OCF_ArtifactDaedric_MasqueClavicusVile"@ || keyword == "OCF_ArtifactDwarven_VisageMzund"@ || keyword == "OCF_ArtifactLegendary_DragonPriestMask"@ || keyword == "OCF_ReplicaDaedric_MasqueClavicusVile"@,
        ArmorGroup::Hands => keyword == "ClothingHands"@ || keyword == "OCF_ArmorGauntlets_Heavy"@ || keyword == "OCF_ArmorGauntlets_Light"@ || keyword == "OCF_ArmorGauntlets_Medium"@ || keyword == "OCF_ArmorTypeHands"@ || keyword == "OCF_ArmorTypeHands_Alt"@ || keyword == "OCF_ArmorTypeHands_Main"@ || keyword == "OCF_ArtifactAedric_CrusaderGauntlets"@ || keyword == "OCF_ArtifactDaedric_NightingaleGauntlets"@ || keyword == "OCF_HandTypeArmlet"@ || keyword == "OCF_HandTypeBandage"@ || keyword == "OCF_HandTypeBracer"@ || keyword == "OCF_HandTypeClaws"@ || keyword == "OCF_HandTypeCuffs"@ || keyword == "OCF_HandTypeGloves"@ || keyword == "OCF_HandTypeSleeves"@ || keyword == "OCF_ReplicaAedric_CrusaderGauntlets"@ || keyword == "OCF_ReplicaDaedric_NightingaleGauntlets"@ || keyword == "WAF_FingerlessGauntletsBracers"@ || keyword == "WAF_SpikedGauntletGloves"@ || keyword == "OCF_ArtifactDwarven_Wraithguard"@ || keyword == "OCF_ArtifactLegendary_FistsRandagulf"@,
        ArmorGroup::Body => keyword == "ClothingBody"@ || keyword == "ArmorClothing"@ || keyword == "OCF_ArmorBodyPart"@ || keyword == "OCF_ArmorTypeBody"@ || keyword == "OCF_ArmorTypeBody_Alt"@ || keyword == "OCF_ArmorTypeBody_Main"@ || keyword == "OCF_BodyTypeCollar"@ || keyword == "OCF_BodyTypeCorset"@ || keyword == "OCF_BodyTypeDress"@ || keyword == "OCF_BodyTypeLingerie"@ || keyword == "OCF_BodyTypeMantle"@ || keyword == "OCF_BodyTypePants"@ || keyword == "OCF_BodyTypePauldron"@ || keyword == "OCF_BodyTypePauldronL"@ || keyword == "OCF_BodyTypePauldronLR"@ || keyword == "OCF_BodyTypePauldronR"@ || keyword == "OCF_BodyTypeRobes"@ || keyword == "OCF_BodyTypeScarf"@ || keyword == "OCF_BodyTypeSkirt"@ || keyword == "OCF_BodyTypeTail"@ || keyword == "OCF_BodyTypeTailReal"@ || keyword == "OCF_BodyTypeTasset"@ || keyword == "OCF_BodyTypeTorc"@ || keyword == "OCF_BodyTypeTorso"@ || keyword == "OCF_BodyTypeUnderwear_FullF"@ || keyword == "OCF_BodyTypeWings"@ || keyword == "OCF_BodyTypeWingsJewelry"@ || keyword == "OCF_BodyTypeWingsReal"@ || keyword == "OCF_ArmorCuirass_Heavy"@ || keyword == "OCF_ArmorCuirass_Light"@ || keyword == "OCF_ArmorCuirass_Medium"@ || keyword == "OCF_ArtifactAedric_CrusaderCuirass"@ || keyword == "OCF_ArtifactAedric_MorihausCuirass"@ || keyword == "OCF_ArtifactDaedric_NightingaleCuirass"@ || keyword == "OCF_ArtifactLegendary_DragonboneCuirass"@ || keyword == "OCF_ReplicaAedric_CrusaderCuirass"@ || keyword == "OCF_ReplicaAedric_MorihausCuirass"@ || keyword == "OCF_ReplicaDaedric_NightingaleCuirass"@ || keyword == "OCF_ReplicaLegendary_DragonboneCuirass"@ || keyword == "OCF_ArtifactAedric_LordMail"@ || keyword == "OCF_ArtifactDaedric_EbonyMail"@ || keyword == "OCF_ReplicaAedric_LordMail"@ || keyword == "OCF_ReplicaDaedric_EbonyMail"@ || keyword == "OCF_ArtifactDaedric_SaviorHide"@ || keyword == "OCF_ReplicaDaedric_SaviorHide"@,
        ArmorGroup::Feet => keyword == "ClothingFeet"@ || keyword == "OCF_ArmorTypeFeet"@ || keyword == "OCF_ArmorTypeFeet_Alt"@ || keyword == "OCF_ArmorTypeFeet_Main"@ || keyword == "OCF_FeetTypeFootwraps"@ || keyword == "OCF_FeetTypeHeels"@ || keyword == "OCF_FeetTypeHeelsBoots"@ || keyword == "OCF_FeetTypeSabatons"@ || keyword == "OCF_FeetTypeSandals"@ || keyword == "OCF_FeetTypeShoes"@ || keyword == "OCF_FeetTypeStockings"@ || keyword == "OCF_ArmorBoots_Heavy"@ || keyword == "OCF_ArmorBoots_Light"@ || keyword == "OCF_ArmorBoots_Medium"@ || keyword == "OCF_ArtifactAedric_CrusaderBoots"@ || keyword == "OCF_ArtifactDaedric_NightingaleBoots"@ || keyword == "OCF_ArtifactLegendary_BootsApostle"@ || keyword == "OCF_ArtifactLegendary_BootsBlindingSpeed"@ || keyword == "OCF_ReplicaAedric_CrusaderBoots"@ || keyword == "OCF_ReplicaDaedric_NightingaleBoots"@ || keyword == "OCF_ReplicaLegendary_BootsApostle"@ || keyword == "OCF_ReplicaLegendary_BootsBlindingSpeed"@ || keyword == "ClothingPanties"@ || keyword == "ClothingStrapOn"@,
        ArmorGroup::Shields => keyword == "ArmorShield"@ || keyword == "OCF_AccessoryShield"@ || keyword == "OCF_AccessoryShield_Light"@ || keyword == "OCF_ArmorShield_Heavy"@ || keyword == "OCF_ArmorShield_Light"@ || keyword == "OCF_ArmorShield_Medium"@ || keyword == "OCF_ArtifactAedric_AurielShield"@ || keyword == "OCF_ArtifactAedric_CrusaderShield"@ || keyword == "OCF_ArtifactDaedric_Spellbreaker"@ || keyword == "OCF_ArtifactDwarven_AetherialShield"@ || keyword == "OCF_ArtifactLegendary_EleidonWard"@ || keyword == "OCF_ArtifactLegendary_YsgramorShield"@ || keyword == "OCF_ReplicaAedric_AurielShield"@ || keyword == "OCF_ReplicaAedric_CrusaderShield"@ || keyword == "OCF_ReplicaDwarven_AetherialShield"@ || keyword == "OCF_ReplicaLegendary_YsgramorShield"@ || keyword == "OCF_ShieldTypeBuckler"@ || keyword == "OCF_ShieldTypeKite"@ || keyword == "OCF_ShieldTypeSpiked"@ || keyword == "OCF_ShieldTypeTower"@ || keyword == "OCF_ReplicaDaedric_Spellbreaker"@,
        ArmorGroup::Rings => keyword == "ClothingRing"@ || keyword == "OCF_ArtifactAedric_RingPhynaster"@ || keyword == "OCF_ArtifactAedric_RingWarlock"@ || keyword == "OCF_ArtifactAedric_RingWind"@ || keyword == "OCF_ArtifactDaedric_RingHircine"@ || keyword == "OCF_ArtifactDaedric_RingKhajiit"@ || keyword == "OCF_ArtifactDaedric_RingMoonStar"@ || keyword == "OCF_ArtifactDaedric_RingNamira"@ || keyword == "OCF_ArtifactLegendary_RingMasser"@ || keyword == "OCF_ArtifactLegendary_RingMentor"@ || keyword == "OCF_ArtifactLegendary_RingVampiric"@ || keyword == "OCF_ArtifactLegendary_RingVipereye"@ || keyword == "OCF_ArtifactLegendary_RingZurinArctus"@ || keyword == "OCF_ReplicaAedric_RingPhynaster"@ || keyword == "OCF_ReplicaAedric_RingWarlock"@ || keyword == "OCF_ReplicaAedric_RingWind"@ || keyword == "OCF_ReplicaDaedric_RingHircine"@ || keyword == "OCF_ReplicaDaedric_RingKhajiit"@ || keyword == "OCF_ReplicaDaedric_RingNamira"@ || keyword == "OCF_ReplicaLegendary_RingMentor"@ || keyword == "OCF_ReplicaLegendary_RingVampiric"@ || keyword == "OCF_ReplicaLegendary_RingVipereye"@ || keyword == "OCF_ReplicaLegendary_RingZurinArctus"@,
        ArmorGroup::Cloaks => keyword == "FrostfallIsCloakCloth"@ || keyword == "WAF_ClothingCloak"@,
        ArmorGroup::Masks => keyword == "OCF_HeadTypeMask"@ || keyword == "OCF_HeadTypeMaskEyes"@ || keyword == "OCF_HeadTypeMaskFull"@ || keyword == "OCF_HeadTypeMaskHood"@ || keyword == "OCF_HeadTypeMaskMouth"@,
        ArmorGroup::Belts => keyword == "OCF_AccessoryBelt"@ || keyword == "OCF_AccessoryBeltBook"@ || keyword == "OCF_BagTypeBelt"@,
        ArmorGroup::Lights => keyword == "OCF_ToolLantern"@ || keyword == "OCF_ToolLanternPaper"@,
        ArmorGroup::Jewelry => keyword == "ClothingEarrings"@ || keyword == "OCF_AccessoryJewelry"@,
        ArmorGroup::Backpacks => keyword == "OCF_BagTypeBackpack"@,
    }
}

/// Whether `keyword` is one of the keywords of group `g`.
pub fn is_in_armor_group(g: ArmorGroup, keyword: &String) -> (r: bool)
    ensures
        r == in_armor_group(g, keyword@),
{
    match g {
        ArmorGroup::Light => *keyword == String::from_str("OCF_AccessoryShield_Light") || *keyword == String::from_str("OCF_ArmorBoots_Light") || *keyword == String::from_str("OCF_ArmorCuirass_Light") || *keyword == String::from_str("OCF_ArmorGauntlets_Light") || *keyword == String::from_str("OCF_ArmorHelmet_Light") || *keyword == String::from_str("OCF_ArmorShield_Light"),
        ArmorGroup::Heavy => *keyword == String::from_str("OCF_ArmorBoots_Heavy") || *keyword == String::from_str("OCF_ArmorCuirass_Heavy") || *keyword == String::from_str("OCF_ArmorGauntlets_Heavy") || *keyword == String::from_str("OCF_ArmorHelmet_Heavy") || *keyword == String::from_str("OCF_ArmorShield_Heavy"),
        ArmorGroup::Clothes => *keyword == String::from_str("ArmorClothing") || *keyword == String::from_str("ClothingBody") || *keyword == String::from_str("ClothingCirclet") || *keyword == String::from_str("ClothingCrown") || *keyword == String::from_str("ClothingEarrings") || *keyword == String::from_str("ClothingFeet") || *keyword == String::from_str("ClothingHands") || *keyword == String::from_str("ClothingNecklace") || *keyword == String::from_str("ClothingPanties") || *keyword == String::from_str("ClothingRing") || *keyword == String::from_str("ClothingStrapOn") || *keyword == String::from_str("FrostfallIsCloakCloth") || *keyword == String::from_str("VendorItemClothing") || *keyword == String::from_str("WAF_ClothingAccessories") || *keyword == String::from_str("WAF_ClothingCloak") || *keyword == String::from_str("WAF_ClothingMedicalHealing") || *keyword == String::from_str("WAF_ClothingPouch"),
        ArmorGroup::Amulets => *keyword == String::from_str("ClothingNecklace") || *keyword == String::from_str("OCF_ArtifactAedric_AmuletKings") || *keyword == String::from_str("OCF_ArtifactDaedric_SanctuaryAmulet") || *keyword == String::from_str("OCF_ArtifactLegendary_GaulderAmulet") || *keyword == String::from_str("OCF_ArtifactLegendary_NecromancerAmulet") || *keyword == String::from_str("OCF_ReplicaAedric_AmuletKings") || *keyword == String::from_str("OCF_ReplicaDaedric_SanctuaryAmulet") || *keyword == String::from_str("OCF_ReplicaLegendary_GaulderAmulet") || *keyword == String::from_str("OCF_ReplicaLegendary_NecromancerAmulet"),
        ArmorGroup::Circlets => *keyword == String::from_str("ArmorCrown") || *keyword == String::from_str("ClothingCirclet") || *keyword == String::from_str("ClothingCrown") || *keyword == String::from_str("OCF_ArtifactDwarven_AetherialCrown") || *keyword == String::from_str("OCF_ArtifactLegendary_JaggedCrown") || *keyword == String::from_str("OCF_ReplicaDwarven_AetherialCrown") || *keyword == String::from_str("OCF_ReplicaLegendary_JaggedCrown") || *keyword == String::from_str("OCF_ArtifactDaedric_Nightingale"),
        ArmorGroup::Head => *keyword == String::from_str("ArmorHelmet") || *keyword == String::from_str("OCF_ArmorHelmet_Heavy") || *keyword == String::from_str("OCF_ArmorHelmet_Light") || *keyword == String::from_str("OCF_ArmorHelmet_Medium") || *keyword == String::from_str("OCF_ArmorTypeHead") || *keyword == String::from_str("OCF_ArmorTypeHead_Alt") || *keyword == String::from_str("OCF_ArmorTypeHead_Main") || *keyword == String::from_str("OCF_ArtifactAedric_CrusaderHelm") || *keyword == String::from_str("OCF_ArtifactDaedric_NightingaleHelmet") || *keyword == String::from_str("OCF_ArtifactLegendary_AdamantiumHelmTohan") || *keyword == String::from_str("OCF_ArtifactLegendary_BloodwormHelm") || *keyword == String::from_str("OCF_ArtifactLegendary_HelmOreynBearclaw") || *keyword == String::from_str("OCF_ArtifactLegendary_HelmTiberSeptim") || *keyword == String::from_str("OCF_HeadTypeBandage") || *keyword == String::from_str("OCF_HeadTypeBandana") || *keyword == String::from_str("OCF_HeadTypeBarrette") || *keyword == String::from_str("OCF_HeadTypeBlindfold") || *keyword == String::from_str("OCF_HeadTypeEarsReal") || *keyword == String::from_str("OCF_HeadTypeEyePatch") || *keyword == String::from_str("OCF_HeadTypeGag") || *keyword == String::from_str("OCF_HeadTypeGoggles") || *keyword == String::from_str("OCF_HeadTypeHalo") || *keyword == String::from_str("OCF_HeadTypeHat") || *keyword == String::from_str("OCF_HeadTypeHood") || *keyword == String::from_str("OCF_HeadTypeHorns") || *keyword == String::from_str("OCF_HeadTypeHornsAntlers") || *keyword == String::from_str("OCF_HeadTypeWig") || *keyword == String::from_str("OCF_ReplicaAedric_CrusaderHelm") || *keyword == String::from_str("OCF_ReplicaDaedric_NightingaleHelmet") || *keyword == String::from_str("OCF_ReplicaLegendary_AdamantiumHelmTohan") || *keyword == String::from_str("OCF_ReplicaLegendary_BloodwormHelm") || *keyword == String::from_str("OCF_ReplicaLegendary_HelmOreynBearclaw") || *keyword == String::from_str("OCF_ReplicaLegendary_HelmTiberSeptim") || *keyword == String::from_str("OCF_ArtifactDaedric_GrayCowlNocturnal") || *keyword == String::from_str("ClavicusVileMask") || *keyword == String::from_str("OCF_ArtifactDaedric_MasqueClavicusVile") || *keyword == String::from_str("OCF_ArtifactDwarven_VisageMzund") || *keyword == String::from_str("OCF_ArtifactLegendary_DragonPriestMask") || *keyword == String::from_str("OCF_ReplicaDaedric_MasqueClavicusVile"),
        ArmorGroup::Hands => *keyword == String::from_str("ClothingHands") || *keyword == String::from_str("OCF_ArmorGauntlets_Heavy") || *keyword == String::from_str("OCF_ArmorGauntlets_Light") || *keyword == String::from_str("OCF_ArmorGauntlets_Medium") || *keyword == String::from_str("OCF_ArmorTypeHands") || *keyword == String::from_str("OCF_ArmorTypeHands_Alt") || *keyword == String::from_str("OCF_ArmorTypeHands_Main") || *keyword == String::from_str("OCF_ArtifactAedric_CrusaderGauntlets") || *keyword == String::from_str("OCF_ArtifactDaedric_NightingaleGauntlets") || *keyword == String::from_str("OCF_HandTypeArmlet") || *keyword == String::from_str("OCF_HandTypeBandage") || *keyword == String::from_str("OCF_HandTypeBracer") || *keyword == String::from_str("OCF_HandTypeClaws") || *keyword == String::from_str("OCF_HandTypeCuffs") || *keyword == String::from_str("OCF_HandTypeGloves") || *keyword == String::from_str("OCF_HandTypeSleeves") || *keyword == String::from_str("OCF_ReplicaAedric_CrusaderGauntlets") || *keyword == String::from_str("OCF_ReplicaDaedric_NightingaleGauntlets") || *keyword == String::from_str("WAF_FingerlessGauntletsBracers") || *keyword == String::from_str("WAF_SpikedGauntletGloves") || *keyword == String::from_str("OCF_ArtifactDwarven_Wraithguard") || *keyword == String::from_str("OCF_ArtifactLegendary_FistsRandagulf"),
        ArmorGroup::Body => *keyword == String::from_str("ClothingBody") || *keyword == String::from_str("ArmorClothing") || *keyword == String::from_str("OCF_ArmorBodyPart") || *keyword == String::from_str("OCF_ArmorTypeBody") || *keyword == String::from_str("OCF_ArmorTypeBody_Alt") || *keyword == String::from_str("OCF_ArmorTypeBody_Main") || *keyword == String::from_str("OCF_BodyTypeCollar") || *keyword == String::from_str("OCF_BodyTypeCorset") || *keyword == String::from_str("OCF_BodyTypeDress") || *keyword == String::from_str("OCF_BodyTypeLingerie") || *keyword == String::from_str("OCF_BodyTypeMantle") || *keyword == String::from_str("OCF_BodyTypePants") || *keyword == String::from_str("OCF_BodyTypePauldron") || *keyword == String::from_str("OCF_BodyTypePauldronL") || *keyword == String::from_str("OCF_BodyTypePauldronLR") || *keyword == String::from_str("OCF_BodyTypePauldronR") || *keyword == String::from_str("OCF_BodyTypeRobes") || *keyword == String::from_str("OCF_BodyTypeScarf") || *keyword == String::from_str("OCF_BodyTypeSkirt") || *keyword == String::from_str("OCF_BodyTypeTail") || *keyword == String::from_str("OCF_BodyTypeTailReal") || *keyword == String::from_str("OCF_BodyTypeTasset") || *keyword == String::from_str("OCF_BodyTypeTorc") || *keyword == String::from_str("OCF_BodyTypeTorso") || *keyword == String::from_str("OCF_BodyTypeUnderwear_FullF") || *keyword == String::from_str("OCF_BodyTypeWings") || *keyword == String::from_str("OCF_BodyTypeWingsJewelry") || *keyword == String::from_str("OCF_BodyTypeWingsReal") || *keyword == String::from_str("OCF_ArmorCuirass_Heavy") || *keyword == String::from_str("OCF_ArmorCuirass_Light") || *keyword == String::from_str("OCF_ArmorCuirass_Medium") || *keyword == String::from_str("OCF_ArtifactAedric_CrusaderCuirass") || *keyword == String::from_str("OCF_ArtifactAedric_MorihausCuirass") || *keyword == String::from_str("OCF_ArtifactDaedric_NightingaleCuirass") || *keyword == String::from_str("OCF_ArtifactLegendary_DragonboneCuirass") || *keyword == String::from_str("OCF_ReplicaAedric_CrusaderCuirass") || *keyword == String::from_str("OCF_ReplicaAedric_MorihausCuirass") || *keyword == String::from_str("OCF_ReplicaDaedric_NightingaleCuirass") || *keyword == String::from_str("OCF_ReplicaLegendary_DragonboneCuirass") || *keyword == String::from_str("OCF_ArtifactAedric_LordMail") || *keyword == String::from_str("OCF_ArtifactDaedric_EbonyMail") || *keyword == String::from_str("OCF_ReplicaAedric_LordMail") || *keyword == String::from_str("OCF_ReplicaDaedric_EbonyMail") || *keyword == String::from_str("OCF_ArtifactDaedric_SaviorHide") || *keyword == String::from_str("OCF_ReplicaDaedric_SaviorHide"),
        ArmorGroup::Feet => *keyword == String::from_str("ClothingFeet") || *keyword == String::from_str("OCF_ArmorTypeFeet") || *keyword == String::from_str("OCF_ArmorTypeFeet_Alt") || *keyword == String::from_str("OCF_ArmorTypeFeet_Main") || *keyword == String::from_str("OCF_FeetTypeFootwraps") || *keyword == String::from_str("OCF_FeetTypeHeels") || *keyword == String::from_str("OCF_FeetTypeHeelsBoots") || *keyword == String::from_str("OCF_FeetTypeSabatons") || *keyword == String::from_str("OCF_FeetTypeSandals") || *keyword == String::from_str("OCF_FeetTypeShoes") || *keyword == String::from_str("OCF_FeetTypeStockings") || *keyword == String::from_str("OCF_ArmorBoots_Heavy") || *keyword == String::from_str("OCF_ArmorBoots_Light") || *keyword == String::from_str("OCF_ArmorBoots_Medium") || *keyword == String::from_str("OCF_ArtifactAedric_CrusaderBoots") || *keyword == String::from_str("OCF_ArtifactDaedric_NightingaleBoots") || *keyword == String::from_str("OCF_ArtifactLegendary_BootsApostle") || *keyword == String::from_str("OCF_ArtifactLegendary_BootsBlindingSpeed") || *keyword == String::from_str("OCF_ReplicaAedric_CrusaderBoots") || *keyword == String::from_str("OCF_ReplicaDaedric_NightingaleBoots") || *keyword == String::from_str("OCF_ReplicaLegendary_BootsApostle") || *keyword == String::from_str("OCF_ReplicaLegendary_BootsBlindingSpeed") || *keyword == String::from_str("ClothingPanties") || *keyword == String::from_str("ClothingStrapOn"),
        ArmorGroup::Shields => *keyword == String::from_str("ArmorShield") || *keyword == String::from_str("OCF_AccessoryShield") || *keyword == String::from_str("OCF_AccessoryShield_Light") || *keyword == String::from_str("OCF_ArmorShield_Heavy") || *keyword == String::from_str("OCF_ArmorShield_Light") || *keyword == String::from_str("OCF_ArmorShield_Medium") || *keyword == String::from_str("OCF_ArtifactAedric_AurielShield") || *keyword == String::from_str("OCF_ArtifactAedric_CrusaderShield") || *keyword == String::from_str("OCF_ArtifactDaedric_Spellbreaker") || *keyword == String::from_str("OCF_ArtifactDwarven_AetherialShield") || *keyword == String::from_str("OCF_ArtifactLegendary_EleidonWard") || *keyword == String::from_str("OCF_ArtifactLegendary_YsgramorShield") || *keyword == String::from_str("OCF_ReplicaAedric_AurielShield") || *keyword == String::from_str("OCF_ReplicaAedric_CrusaderShield") || *keyword == String::from_str("OCF_ReplicaDwarven_AetherialShield") || *keyword == String::from_str("OCF_ReplicaLegendary_YsgramorShield") || *keyword == String::from_str("OCF_ShieldTypeBuckler") || *keyword == String::from_str("OCF_ShieldTypeKite") || *keyword == String::from_str("OCF_ShieldTypeSpiked") || *keyword == String::from_str("OCF_ShieldTypeTower") || *keyword == String::from_str("OCF_ReplicaDaedric_Spellbreaker"),
        ArmorGroup::Rings => *keyword == String::from_str("ClothingRing") || *keyword == String::from_str("OCF_ArtifactAedric_RingPhynaster") || *keyword == String::from_str("OCF_ArtifactAedric_RingWarlock") || *keyword == String::from_str("OCF_ArtifactAedric_RingWind") || *keyword == String::from_str("OCF_ArtifactDaedric_RingHircine") || *keyword == String::from_str("OCF_ArtifactDaedric_RingKhajiit") || *keyword == String::from_str("OCF_ArtifactDaedric_RingMoonStar") || *keyword == String::from_str("OCF_ArtifactDaedric_RingNamira") || *keyword == String::from_str("OCF_ArtifactLegendary_RingMasser") || *keyword == String::from_str("OCF_ArtifactLegendary_RingMentor") || *keyword == String::from_str("OCF_ArtifactLegendary_RingVampiric") || *keyword == String::from_str("OCF_ArtifactLegendary_RingVipereye") || *keyword == String::from_str("OCF_ArtifactLegendary_RingZurinArctus") || *keyword == String::from_str("OCF_ReplicaAedric_RingPhynaster") || *keyword == String::from_str("OCF_ReplicaAedric_RingWarlock") || *keyword == String::from_str("OCF_ReplicaAedric_RingWind") || *keyword == String::from_str("OCF_ReplicaDaedric_RingHircine") || *keyword == String::from_str("OCF_ReplicaDaedric_RingKhajiit") || *keyword == String::from_str("OCF_ReplicaDaedric_RingNamira") || *keyword == String::from_str("OCF_ReplicaLegendary_RingMentor") || *keyword == String::from_str("OCF_ReplicaLegendary_RingVampiric") || *keyword == String::from_str("OCF_ReplicaLegendary_RingVipereye") || *keyword == String::from_str("OCF_ReplicaLegendary_RingZurinArctus"),
        ArmorGroup::Cloaks => *keyword == String::from_str("FrostfallIsCloakCloth") || *keyword == String::from_str("WAF_ClothingCloak"),
        ArmorGroup::Masks => *keyword == String::from_str("OCF_HeadTypeMask") || *keyword == String::from_str("OCF_HeadTypeMaskEyes") || *keyword == String::from_str("OCF_HeadTypeMaskFull") || *keyword == String::from_str("OCF_HeadTypeMaskHood") || *keyword == String::from_str("OCF_HeadTypeMaskMouth"),
        ArmorGroup::Belts => *keyword == String::from_str("OCF_AccessoryBelt") || *keyword == String::from_str("OCF_AccessoryBeltBook") || *keyword == String::from_str("OCF_BagTypeBelt"),
        ArmorGroup::Lights => *keyword == String::from_str("OCF_ToolLantern") || *keyword == String::from_str("OCF_ToolLanternPaper"),
        ArmorGroup::Jewelry => *keyword == String::from_str("ClothingEarrings") || *keyword == String::from_str("OCF_AccessoryJewelry"),
        ArmorGroup::Backpacks => *keyword == String::from_str("OCF_BagTypeBackpack"),
    }
}

/// The weight a single keyword names, if any.
pub open spec fn weight_for_keyword(k: Seq<char>) -> Option<ArmorWeight> {
    if in_armor_group(ArmorGroup::Light, k) {
        Some(ArmorWeight::Light)
    }
    else if in_armor_group(ArmorGroup::Heavy, k) {
        Some(ArmorWeight::Heavy)
    }
    else if in_armor_group(ArmorGroup::Clothes, k) {
        Some(ArmorWeight::Clothing)
    }
    else {
        None
    }
}

/// The slot a single keyword names, if any.
pub open spec fn slot_for_keyword(k: Seq<char>) -> Option<ArmorSlot> {
    if in_armor_group(ArmorGroup::Amulets, k) {
        Some(ArmorSlot::Amulet)
    }
    else if in_armor_group(ArmorGroup::Circlets, k) {
        Some(ArmorSlot::Circlet)
    }
    else if in_armor_group(ArmorGroup::Head, k) {
        Some(ArmorSlot::Head)
    }
    else if in_armor_group(ArmorGroup::Hands, k) {
        Some(ArmorSlot::Hands)
    }
    else if in_armor_group(ArmorGroup::Body, k) {
        Some(ArmorSlot::Body)
    }
    else if in_armor_group(ArmorGroup::Feet, k) {
        Some(ArmorSlot::Feet)
    }
    else if in_armor_group(ArmorGroup::Shields, k) {
        Some(ArmorSlot::Shield)
    }
    else if in_armor_group(ArmorGroup::Rings, k) {
        Some(ArmorSlot::Ring)
    }
    else if in_armor_group(ArmorGroup::Cloaks, k) {
        Some(ArmorSlot::Cloak)
    }
    else if in_armor_group(ArmorGroup::Masks, k) {
        Some(ArmorSlot::Mask)
    }
    else if in_armor_group(ArmorGroup::Belts, k) {
        Some(ArmorSlot::Belt)
    }
    else if in_armor_group(ArmorGroup::Lights, k) {
        Some(ArmorSlot::Lantern)
    }
    else if in_armor_group(ArmorGroup::Jewelry, k) {
        Some(ArmorSlot::Earring)
    }
    else if in_armor_group(ArmorGroup::Backpacks, k) {
        Some(ArmorSlot::Backpack)
    }
    else {
        None
    }
}

fn weight_for(k: &String) -> (r: Option<ArmorWeight>)
    ensures
        r == weight_for_keyword(k@),
{
    if is_in_armor_group(ArmorGroup::Light, k) {
        Some(ArmorWeight::Light)
    }
    else if is_in_armor_group(ArmorGroup::Heavy, k) {
        Some(ArmorWeight::Heavy)
    }
    else if is_in_armor_group(ArmorGroup::Clothes, k) {
        Some(ArmorWeight::Clothing)
    }
    else {
        None
    }
}

fn slot_for(k: &String) -> (r: Option<ArmorSlot>)
    ensures
        r == slot_for_keyword(k@),
{
    if is_in_armor_group(ArmorGroup::Amulets, k) {
        Some(ArmorSlot::Amulet)
    }
    else if is_in_armor_group(ArmorGroup::Circlets, k) {
        Some(ArmorSlot::Circlet)
    }
    else if is_in_armor_group(ArmorGroup::Head, k) {
        Some(ArmorSlot::Head)
    }
    else if is_in_armor_group(ArmorGroup::Hands, k) {
        Some(ArmorSlot::Hands)
    }
    else if is_in_armor_group(ArmorGroup::Body, k) {
        Some(ArmorSlot::Body)
    }
    else if is_in_armor_group(ArmorGroup::Feet, k) {
        Some(ArmorSlot::Feet)
    }
    else if is_in_armor_group(ArmorGroup::Shields, k) {
        Some(ArmorSlot::Shield)
    }
    else if is_in_armor_group(ArmorGroup::Rings, k) {
        Some(ArmorSlot::Ring)
    }
    else if is_in_armor_group(ArmorGroup::Cloaks, k) {
        Some(ArmorSlot::Cloak)
    }
    else if is_in_armor_group(ArmorGroup::Masks, k) {
        Some(ArmorSlot::Mask)
    }
    else if is_in_armor_group(ArmorGroup::Belts, k) {
        Some(ArmorSlot::Belt)
    }
    else if is_in_armor_group(ArmorGroup::Lights, k) {
        Some(ArmorSlot::Lantern)
    }
    else if is_in_armor_group(ArmorGroup::Jewelry, k) {
        Some(ArmorSlot::Earring)
    }
    else if is_in_armor_group(ArmorGroup::Backpacks, k) {
        Some(ArmorSlot::Backpack)
    }
    else {
        None
    }
}

/// The weight named by the first keyword that names one.
pub open spec fn first_weight(keywords: Seq<Seq<char>>) -> Option<ArmorWeight>
    decreases keywords.len(),
{
    if keywords.len() == 0 {
        None
    } else {
        match weight_for_keyword(keywords[0]) {
            Some(a) => Some(a),
            None => first_weight(keywords.skip(1)),
        }
    }
}

fn find_weight(keywords: &[String]) -> (r: Option<ArmorWeight>)
    ensures
        r == first_weight(keywords@.map_values(|k: String| k@)),
{
    let ghost ks = keywords@.map_values(|k: String| k@);
    let mut i: usize = 0;
    assert(ks.skip(0) =~= ks);
    while i < keywords.len()
        invariant
            i <= keywords@.len(),
            ks == keywords@.map_values(|k: String| k@),
            first_weight(ks) == first_weight(ks.skip(i as int)),
        decreases keywords.len() - i,
    {
        assert(ks.skip(i as int).skip(1) =~= ks.skip(i + 1));
        assert(ks.skip(i as int)[0] == keywords@[i as int]@);
        let found = weight_for(&keywords[i]);
        if found.is_some() {
            return found;
        }
        i += 1;
    }
    assert(ks.skip(i as int).len() == 0);
    None
}

/// The slot named by the first keyword that names one.
pub open spec fn first_slot(keywords: Seq<Seq<char>>) -> Option<ArmorSlot>
    decreases keywords.len(),
{
    if keywords.len() == 0 {
        None
    } else {
        match slot_for_keyword(keywords[0]) {
            Some(a) => Some(a),
            None => first_slot(keywords.skip(1)),
        }
    }
}

fn find_slot(keywords: &[String]) -> (r: Option<ArmorSlot>)
    ensures
        r == first_slot(keywords@.map_values(|k: String| k@)),
{
    let ghost ks = keywords@.map_values(|k: String| k@);
    let mut i: usize = 0;
    assert(ks.skip(0) =~= ks);
    while i < keywords.len()
        invariant
            i <= keywords@.len(),
            ks == keywords@.map_values(|k: String| k@),
            first_slot(ks) == first_slot(ks.skip(i as int)),
        decreases keywords.len() - i,
    {
        assert(ks.skip(i as int).skip(1) =~= ks.skip(i + 1));
        assert(ks.skip(i as int)[0] == keywords@[i as int]@);
        let found = slot_for(&keywords[i]);
        if found.is_some() {
            return found;
        }
        i += 1;
    }
    assert(ks.skip(i as int).len() == 0);
    None
}

/// The icon for armor worn in a slot with a weight; armor with no known slot
/// gets the clothing icon.
pub open spec fn armor_icon(slot: Option<ArmorSlot>, weight: ArmorWeight) -> Icon {
    match slot {
        Some(ArmorSlot::Head) => match weight {
            ArmorWeight::Clothing => Icon::ArmorClothingHead,
            ArmorWeight::Heavy => Icon::ArmorHeavyHead,
            ArmorWeight::Light => Icon::ArmorLightHead,
        },
        Some(ArmorSlot::Body) => match weight {
            ArmorWeight::Clothing => Icon::ArmorClothing,
            ArmorWeight::Heavy => Icon::ArmorHeavy,
            ArmorWeight::Light => Icon::ArmorLight,
        },
        Some(ArmorSlot::Hands) => match weight {
            ArmorWeight::Clothing => Icon::ArmorClothingHands,
            ArmorWeight::Heavy => Icon::ArmorHeavyHands,
            ArmorWeight::Light => Icon::ArmorLightHands,
        },
        Some(ArmorSlot::Feet) => match weight {
            ArmorWeight::Clothing => Icon::ArmorClothingFeet,
            ArmorWeight::Heavy => Icon::ArmorHeavyFeet,
            ArmorWeight::Light => Icon::ArmorLightFeet,
        },
        Some(ArmorSlot::Shield) => match weight {
            ArmorWeight::Heavy => Icon::ArmorShieldHeavy,
            _ => Icon::ArmorShieldLight,
        },
        Some(ArmorSlot::Amulet) => Icon::ArmorAmulet,
        Some(ArmorSlot::Earring) => Icon::ArmorEarring,
        Some(ArmorSlot::Circlet) => Icon::ArmorCirclet,
        Some(ArmorSlot::Cloak) => Icon::ArmorCloak,
        Some(ArmorSlot::Mask) => Icon::ArmorMask,
        Some(ArmorSlot::Ring) => Icon::ArmorRing,
        Some(ArmorSlot::Backpack) => Icon::ArmorBackpack,
        Some(ArmorSlot::Belt) => Icon::ArmorBelt,
        Some(ArmorSlot::Lantern) => Icon::MiscLantern,
        None => Icon::ArmorClothing,
    }
}

fn icon_for(slot: Option<ArmorSlot>, weight: ArmorWeight) -> (r: Icon)
    ensures
        r == armor_icon(slot, weight),
{
    match slot {
        Some(ArmorSlot::Head) => match weight {
            ArmorWeight::Clothing => Icon::ArmorClothingHead,
            ArmorWeight::Heavy => Icon::ArmorHeavyHead,
            ArmorWeight::Light => Icon::ArmorLightHead,
        },
        Some(ArmorSlot::Body) => match weight {
            ArmorWeight::Clothing => Icon::ArmorClothing,
            ArmorWeight::Heavy => Icon::ArmorHeavy,
            ArmorWeight::Light => Icon::ArmorLight,
        },
        Some(ArmorSlot::Hands) => match weight {
            ArmorWeight::Clothing => Icon::ArmorClothingHands,
            ArmorWeight::Heavy => Icon::ArmorHeavyHands,
            ArmorWeight::Light => Icon::ArmorLightHands,
        },
        Some(ArmorSlot::Feet) => match weight {
            ArmorWeight::Clothing => Icon::ArmorClothingFeet,
            ArmorWeight::Heavy => Icon::ArmorHeavyFeet,
            ArmorWeight::Light => Icon::ArmorLightFeet,
        },
        Some(ArmorSlot::Shield) => match weight {
            ArmorWeight::Heavy => Icon::ArmorShieldHeavy,
            _ => Icon::ArmorShieldLight,
        },
        Some(ArmorSlot::Amulet) => Icon::ArmorAmulet,
        Some(ArmorSlot::Earring) => Icon::ArmorEarring,
        Some(ArmorSlot::Circlet) => Icon::ArmorCirclet,
        Some(ArmorSlot::Cloak) => Icon::ArmorCloak,
        Some(ArmorSlot::Mask) => Icon::ArmorMask,
        Some(ArmorSlot::Ring) => Icon::ArmorRing,
        Some(ArmorSlot::Backpack) => Icon::ArmorBackpack,
        Some(ArmorSlot::Belt) => Icon::ArmorBelt,
        Some(ArmorSlot::Lantern) => Icon::MiscLantern,
        None => Icon::ArmorClothing,
    }
}

impl ArmorType {
    /// Build an armor type from its icon and color.
    pub fn new(icon: Icon, color: InvColor) -> (r: Self)
        ensures
            r == (ArmorType { icon, color }),
    {
        ArmorType { icon, color }
    }

    /// The armor type for these keywords: the icon for the first named slot
    /// and the first named weight (clothing when none), colored by the first
    /// color keyword (white when none).
    pub open spec fn spec_classify(keywords: Seq<Seq<char>>) -> ArmorType {
        ArmorType {
            icon: armor_icon(
                first_slot(keywords),
                match first_weight(keywords) {
                    Some(w) => w,
                    None => ArmorWeight::Clothing,
                },
            ),
            color: match first_keyword_color(keywords) {
                Some(c) => c,
                None => InvColor::White,
            },
        }
    }

    /// Shields are held in the hand; every other piece of armor is a utility item.
    pub open spec fn spec_is_utility(self) -> bool {
        !(self.icon is ArmorShieldHeavy || self.icon is ArmorShieldLight)
    }

    /// Whether this armor belongs in the utility cycle rather than a hand.
    pub fn is_utility(&self) -> (r: bool)
        ensures
            r == self.spec_is_utility(),
    {
        !matches!(self.icon, Icon::ArmorShieldHeavy | Icon::ArmorShieldLight)
    }

    /// The icon to use when the armor icon is missing.
    pub open spec fn spec_icon_fallback(self) -> Icon {
        if self.icon is ArmorShieldHeavy || self.icon is ArmorShieldLight {
            Icon::ArmorShieldHeavy
        } else {
            self.icon.spec_fallback()
        }
    }

    /// The icon to use when the armor icon is missing: shields fall back to
    /// the heavy shield, everything else to the fallback of its icon.
    pub fn icon_fallback(&self) -> (r: Icon)
        ensures
            r == self.spec_icon_fallback(),
    {
        if matches!(self.icon, Icon::ArmorShieldHeavy | Icon::ArmorShieldLight) {
            Icon::ArmorShieldHeavy
        } else {
            self.icon.fallback()
        }
    }
}

impl HasKeywords for ArmorType {
    fn classify(_name: &str, keywords: Vec<String>, _ignored: bool) -> (r: Self)
        ensures
            r == ArmorType::spec_classify(keywords@.map_values(|k: String| k@)),
    {
        let color = color_from_keywords(keywords.as_slice());
        let weight = match find_weight(keywords.as_slice()) {
            Some(w) => w,
            None => ArmorWeight::Clothing,
        };
        let slot = find_slot(keywords.as_slice());
        ArmorType { icon: icon_for(slot, weight), color }
    }
}

impl HasIcon for ArmorType {
    fn color(&self) -> (r: Color)
        ensures
            r == self.color.spec_color(),
    {
        self.color.color()
    }

    fn icon(&self) -> (r: &Icon)
        ensures
            *r == self.icon,
    {
        &self.icon
    }
}

} // verus!
