//! All usable icons, as enum variants. Each icon maps to an SVG file named
//! after the variant in snake case, and falls back to an icon of the core set
//! that ships with the HUD.

use vstd::prelude::*;

verus! {

/// The Icon enum. Each variant maps to a known icon type.
#[derive(Clone, Copy, Debug, PartialEq, Eq, Hash, Structural)]
pub enum Icon {
    Alteration,
    AmmoArrow,
    AmmoArrowBodkin,
    AmmoArrowBroadhead,
    AmmoArrowCrescent,
    AmmoArrowFire,
    AmmoArrowHammerhead,
    AmmoArrowPractice,
    AmmoArrowWhistle,
    AmmoBolt,
    AmmoBullet,
    AmmoDart,
    AmmoSlingshot,
    ArmorAmulet,
    ArmorBackpack,
    ArmorBelt,
    ArmorBracelet,
    ArmorCirclet,
    ArmorCloak,
    ArmorClothingFeet,
    ArmorClothingHands,
    ArmorClothingHead,
    ArmorClothing,
    ArmorEarring,
    ArmorHeavyFeet,
    ArmorHeavyHands,
    ArmorHeavyHead,
    ArmorHeavy,
    ArmorLightFeet,
    ArmorLightHands,
    ArmorLightHead,
    ArmorLight,
    ArmorMask,
    ArmorQuiver,
    ArmorRing,
    ArmorRobes,
    ArmorShieldHeavy,
    ArmorShieldLight,
    Conjuration,
    Destruction,
    DrinkMead,
    DrinkTea,
    DrinkWater,
    DrinkWine,
    FoodBread,
    FoodCarrot,
    FoodCheese,
    FoodFish,
    FoodMeat,
    FoodPie,
    FoodStew,
    Food,
    HandToHand,
    IconDefault,
    Illusion,
    MiscLantern,
    MiscCampfire,
    MiscLute,
    MiscTent,
    PotionDefault,
    PotionHealth,
    PotionMagicka,
    PotionPoison,
    PotionResist,
    PotionResistFire,
    PotionResistFrost,
    PotionResistShock,
    PotionSkooma,
    PotionStamina,
    Power,
    PowerCraft,
    PowerFillBottles,
    PowerHorse,
    PowerPeek,
    PowerPray,
    PowerWash,
    PowerWerebear,
    PowerWerewolf,
    Restoration,
    Scroll,
    Shout,
    ShoutAnimalAllegiance,
    ShoutAuraWhisper,
    ShoutBattleFury,
    ShoutBendWill,
    ShoutBreathAttack,
    ShoutCallDragon,
    ShoutCallOfValor,
    ShoutClearSkies,
    ShoutCyclone,
    ShoutDisarm,
    ShoutDismay,
    ShoutDragonAspect,
    ShoutDragonrend,
    ShoutDrainVitality,
    ShoutElementalFury,
    ShoutIceForm,
    ShoutKynesPeace,
    ShoutMarkedForDeath,
    ShoutPhantomForm,
    ShoutSlowtime,
    ShoutSoulTear,
    ShoutStormcall,
    ShoutSummonDurnehviir,
    ShoutThrowVoice,
    ShoutUnrelentingForce,
    ShoutWhirlwindSprint,
    ShoutLightningBreath,
    ShoutPoisonBreath,
    ShoutAlessiasLove,
    ShoutAnnihilate,
    ShoutArcaneHelix,
    ShoutArmageddon,
    ShoutCurse,
    ShoutDanceOfTheDead,
    ShoutEarthquake,
    ShoutEssenceRip,
    ShoutEvocation,
    ShoutGeomagnetism,
    ShoutIceborn,
    ShoutJonesShadow,
    ShoutKingsbane,
    ShoutLifestream,
    ShoutLightningShield,
    ShoutOblivion,
    ShoutPhantomDecoy,
    ShoutRiftwalk,
    ShoutShattersphere,
    ShoutShorsWrath,
    ShoutShroudOfSnowfall,
    ShoutSpeakUntoTheStars,
    ShoutSplinterTwins,
    ShoutStormblast,
    ShoutTheConqueror,
    ShoutTrueshot,
    ShoutWailOfTheBanshee,
    ShoutWanderlust,
    ShoutWarcry,
    SpellArclight,
    SpellBleed,
    SpellCircle,
    SpellConstellation,
    SpellControl,
    SpellCure,
    SpellDetect,
    SpellEagleEye,
    SpellEarth,
    SpellEvade,
    SpellFear,
    SpellFeather,
    SpellFire,
    SpellFrost,
    SpellHeal,
    SpellHoly,
    SpellLeaf,
    SpellLeaves,
    SpellLight,
    SpellLightningBlast,
    SpellMoon,
    SpellDesecration,
    SpellParalyze,
    SpellPoison,
    SpellReanimate,
    SpellReflect,
    SpellRoot,
    SpellRune,
    SpellShadow,
    SpellSharpen,
    SpellShock,
    SpellSilence,
    SpellSlow,
    SpellSoultrap,
    SpellSprint,
    SpellStamina,
    SpellStars,
    SpellSummon,
    SpellSun,
    SpellTeleport,
    SpellTime,
    SpellVampire,
    SpellWard,
    SpellWater,
    SpellWind,
    SpellWisp,
    ToolFishingRod,
    ToolPickaxe,
    ToolShovel,
    ToolSickle,
    MiscTorch,
    WeaponAxeOneHanded,
    WeaponAxeTwoHanded,
    WeaponBow,
    WeaponClaw,
    WeaponCrossbow,
    WeaponDagger,
    WeaponFlail,
    WeaponGrenade,
    WeaponGun,
    WeaponHalberd,
    WeaponHammer,
    WeaponKatana,
    WeaponLance,
    WeaponMace,
    WeaponPike,
    WeaponQuarterstaff,
    WeaponRapier,
    WeaponScythe,
    WeaponStaff,
    WeaponSwordOneHanded,
    WeaponSwordTwoHanded,
    WeaponWhip,
    WeaponWoodAxe,
}

impl Default for Icon {
    fn default() -> (r: Self)
        ensures
            r == Icon::IconDefault,
    {
        Icon::IconDefault
    }
}

impl Icon {
    /// The variant name in snake case.
    pub open spec fn spec_name(self) -> Seq<char> {
        match self {
            Icon::Alteration => "alteration"@,
            Icon::AmmoArrow => "ammo_arrow"@,
            Icon::AmmoArrowBodkin => "ammo_arrow_bodkin"@,
            Icon::AmmoArrowBroadhead => "ammo_arrow_broadhead"@,
            Icon::AmmoArrowCrescent => "ammo_arrow_crescent"@,
            Icon::AmmoArrowFire => "ammo_arrow_fire"@,
            Icon::AmmoArrowHammerhead => "ammo_arrow_hammerhead"@,
            Icon::AmmoArrowPractice => "ammo_arrow_practice"@,
            Icon::AmmoArrowWhistle => "ammo_arrow_whistle"@,
            Icon::AmmoBolt => "ammo_bolt"@,
            Icon::AmmoBullet => "ammo_bullet"@,
            Icon::AmmoDart => "ammo_dart"@,
            Icon::AmmoSlingshot => "ammo_slingshot"@,
            Icon::ArmorAmulet => "armor_amulet"@,
            Icon::ArmorBackpack => "armor_backpack"@,
            Icon::ArmorBelt => "armor_belt"@,
            Icon::ArmorBracelet => "armor_bracelet"@,
            Icon::ArmorCirclet => "armor_circlet"@,
            Icon::ArmorCloak => "armor_cloak"@,
            Icon::ArmorClothingFeet => "armor_clothing_feet"@,
            Icon::ArmorClothingHands => "armor_clothing_hands"@,
            Icon::ArmorClothingHead => "armor_clothing_head"@,
            Icon::ArmorClothing => "armor_clothing"@,
            Icon::ArmorEarring => "armor_earring"@,
            Icon::ArmorHeavyFeet => "armor_heavy_feet"@,
            Icon::ArmorHeavyHands => "armor_heavy_hands"@,
            Icon::ArmorHeavyHead => "armor_heavy_head"@,
            Icon::ArmorHeavy => "armor_heavy"@,
            Icon::ArmorLightFeet => "armor_light_feet"@,
            Icon::ArmorLightHands => "armor_light_hands"@,
            Icon::ArmorLightHead => "armor_light_head"@,
            Icon::ArmorLight => "armor_light"@,
            Icon::ArmorMask => "armor_mask"@,
            Icon::ArmorQuiver => "armor_quiver"@,
            Icon::ArmorRing => "armor_ring"@,
            Icon::ArmorRobes => "armor_robes"@,
            Icon::ArmorShieldHeavy => "armor_shield_heavy"@,
            Icon::ArmorShieldLight => "armor_shield_light"@,
            Icon::Conjuration => "conjuration"@,
            Icon::Destruction => "destruction"@,
            Icon::DrinkMead => "drink_mead"@,
            Icon::DrinkTea => "drink_tea"@,
            Icon::DrinkWater => "drink_water"@,
            Icon::DrinkWine => "drink_wine"@,
            Icon::FoodBread => "food_bread"@,
            Icon::FoodCarrot => "food_carrot"@,
            Icon::FoodCheese => "food_cheese"@,
            Icon::FoodFish => "food_fish"@,
            Icon::FoodMeat => "food_meat"@,
            Icon::FoodPie => "food_pie"@,
            Icon::FoodStew => "food_stew"@,
            Icon::Food => "food"@,
            Icon::HandToHand => "hand_to_hand"@,
            Icon::IconDefault => "icon_default"@,
            Icon::Illusion => "illusion"@,
            Icon::MiscLantern => "misc_lantern"@,
            Icon::MiscCampfire => "misc_campfire"@,
            Icon::MiscLute => "misc_lute"@,
            Icon::MiscTent => "misc_tent"@,
            Icon::PotionDefault => "potion_default"@,
            Icon::PotionHealth => "potion_health"@,
            Icon::PotionMagicka => "potion_magicka"@,
            Icon::PotionPoison => "potion_poison"@,
            Icon::PotionResist => "potion_resist"@,
            Icon::PotionResistFire => "potion_resist_fire"@,
            Icon::PotionResistFrost => "potion_resist_frost"@,
            Icon::PotionResistShock => "potion_resist_shock"@,
            Icon::PotionSkooma => "potion_skooma"@,
            Icon::PotionStamina => "potion_stamina"@,
            Icon::Power => "power"@,
            Icon::PowerCraft => "power_craft"@,
            Icon::PowerFillBottles => "power_fill_bottles"@,
            Icon::PowerHorse => "power_horse"@,
            Icon::PowerPeek => "power_peek"@,
            Icon::PowerPray => "power_pray"@,
            Icon::PowerWash => "power_wash"@,
            Icon::PowerWerebear => "power_werebear"@,
            Icon::PowerWerewolf => "power_werewolf"@,
            Icon::Restoration => "restoration"@,
            Icon::Scroll => "scroll"@,
            Icon::Shout => "shout"@,
            Icon::ShoutAnimalAllegiance => "shout_animal_allegiance"@,
            Icon::ShoutAuraWhisper => "shout_aura_whisper"@,
            Icon::ShoutBattleFury => "shout_battle_fury"@,
            Icon::ShoutBendWill => "shout_bend_will"@,
            Icon::ShoutBreathAttack => "shout_breath_attack"@,
            Icon::ShoutCallDragon => "shout_call_dragon"@,
            Icon::ShoutCallOfValor => "shout_call_of_valor"@,
            Icon::ShoutClearSkies => "shout_clear_skies"@,
            Icon::ShoutCyclone => "shout_cyclone"@,
            Icon::ShoutDisarm => "shout_disarm"@,
            Icon::ShoutDismay => "shout_dismay"@,
            Icon::ShoutDragonAspect => "shout_dragon_aspect"@,
            Icon::ShoutDragonrend => "shout_dragonrend"@,
            Icon::ShoutDrainVitality => "shout_drain_vitality"@,
            Icon::ShoutElementalFury => "shout_elemental_fury"@,
            Icon::ShoutIceForm => "shout_ice_form"@,
            Icon::ShoutKynesPeace => "shout_kynes_peace"@,
            Icon::ShoutMarkedForDeath => "shout_marked_for_death"@,
            Icon::ShoutPhantomForm => "shout_phantom_form"@,
            Icon::ShoutSlowtime => "shout_slowtime"@,
            Icon::ShoutSoulTear => "shout_soul_tear"@,
            Icon::ShoutStormcall => "shout_stormcall"@,
            Icon::ShoutSummonDurnehviir => "shout_summon_durnehviir"@,
            Icon::ShoutThrowVoice => "shout_throw_voice"@,
            Icon::ShoutUnrelentingForce => "shout_unrelenting_force"@,
            Icon::ShoutWhirlwindSprint => "shout_whirlwind_sprint"@,
            Icon::ShoutLightningBreath => "shout_lightning_breath"@,
            Icon::ShoutPoisonBreath => "shout_poison_breath"@,
            Icon::ShoutAlessiasLove => "shout_alessias_love"@,
            Icon::ShoutAnnihilate => "shout_annihilate"@,
            Icon::ShoutArcaneHelix => "shout_arcane_helix"@,
            Icon::ShoutArmageddon => "shout_armageddon"@,
            Icon::ShoutCurse => "shout_curse"@,
            Icon::ShoutDanceOfTheDead => "shout_dance_of_the_dead"@,
            Icon::ShoutEarthquake => "shout_earthquake"@,
            Icon::ShoutEssenceRip => "shout_essence_rip"@,
            Icon::ShoutEvocation => "shout_evocation"@,
            Icon::ShoutGeomagnetism => "shout_geomagnetism"@,
            Icon::ShoutIceborn => "shout_iceborn"@,
            Icon::ShoutJonesShadow => "shout_jones_shadow"@,
            Icon::ShoutKingsbane => "shout_kingsbane"@,
            Icon::ShoutLifestream => "shout_lifestream"@,
            Icon::ShoutLightningShield => "shout_lightning_shield"@,
            Icon::ShoutOblivion => "shout_oblivion"@,
            Icon::ShoutPhantomDecoy => "shout_phantom_decoy"@,
            Icon::ShoutRiftwalk => "shout_riftwalk"@,
            Icon::ShoutShattersphere => "shout_shattersphere"@,
            Icon::ShoutShorsWrath => "shout_shors_wrath"@,
            Icon::ShoutShroudOfSnowfall => "shout_shroud_of_snowfall"@,
            Icon::ShoutSpeakUntoTheStars => "shout_speak_unto_the_stars"@,
            Icon::ShoutSplinterTwins => "shout_splinter_twins"@,
            Icon::ShoutStormblast => "shout_stormblast"@,
            Icon::ShoutTheConqueror => "shout_the_conqueror"@,
            Icon::ShoutTrueshot => "shout_trueshot"@,
            Icon::ShoutWailOfTheBanshee => "shout_wail_of_the_banshee"@,
            Icon::ShoutWanderlust => "shout_wanderlust"@,
            Icon::ShoutWarcry => "shout_warcry"@,
            Icon::SpellArclight => "spell_arclight"@,
            Icon::SpellBleed => "spell_bleed"@,
            Icon::SpellCircle => "spell_circle"@,
            Icon::SpellConstellation => "spell_constellation"@,
            Icon::SpellControl => "spell_control"@,
            Icon::SpellCure => "spell_cure"@,
            Icon::SpellDetect => "spell_detect"@,
            Icon::SpellEagleEye => "spell_eagle_eye"@,
            Icon::SpellEarth => "spell_earth"@,
            Icon::SpellEvade => "spell_evade"@,
            Icon::SpellFear => "spell_fear"@,
            Icon::SpellFeather => "spell_feather"@,
            Icon::SpellFire => "spell_fire"@,
            Icon::SpellFrost => "spell_frost"@,
            Icon::SpellHeal => "spell_heal"@,
            Icon::SpellHoly => "spell_holy"@,
            Icon::SpellLeaf => "spell_leaf"@,
            Icon::SpellLeaves => "spell_leaves"@,
            Icon::SpellLight => "spell_light"@,
            Icon::SpellLightningBlast => "spell_lightning_blast"@,
            Icon::SpellMoon => "spell_moon"@,
            Icon::SpellDesecration => "spell_desecration"@,
            Icon::SpellParalyze => "spell_paralyze"@,
            Icon::SpellPoison => "spell_poison"@,
            Icon::SpellReanimate => "spell_reanimate"@,
            Icon::SpellReflect => "spell_reflect"@,
            Icon::SpellRoot => "spell_root"@,
            Icon::SpellRune => "spell_rune"@,
            Icon::SpellShadow => "spell_shadow"@,
            Icon::SpellSharpen => "spell_sharpen"@,
            Icon::SpellShock => "spell_shock"@,
            Icon::SpellSilence => "spell_silence"@,
            Icon::SpellSlow => "spell_slow"@,
            Icon::SpellSoultrap => "spell_soultrap"@,
            Icon::SpellSprint => "spell_sprint"@,
            Icon::SpellStamina => "spell_stamina"@,
            Icon::SpellStars => "spell_stars"@,
            Icon::SpellSummon => "spell_summon"@,
            Icon::SpellSun => "spell_sun"@,
            Icon::SpellTeleport => "spell_teleport"@,
            Icon::SpellTime => "spell_time"@,
            Icon::SpellVampire => "spell_vampire"@,
            Icon::SpellWard => "spell_ward"@,
            Icon::SpellWater => "spell_water"@,
            Icon::SpellWind => "spell_wind"@,
            Icon::SpellWisp => "spell_wisp"@,
            Icon::ToolFishingRod => "tool_fishing_rod"@,
            Icon::ToolPickaxe => "tool_pickaxe"@,
            Icon::ToolShovel => "tool_shovel"@,
            Icon::ToolSickle => "tool_sickle"@,
            Icon::MiscTorch => "misc_torch"@,
            Icon::WeaponAxeOneHanded => "weapon_axe_one_handed"@,
            Icon::WeaponAxeTwoHanded => "weapon_axe_two_handed"@,
            Icon::WeaponBow => "weapon_bow"@,
            Icon::WeaponClaw => "weapon_claw"@,
            Icon::WeaponCrossbow => "weapon_crossbow"@,
            Icon::WeaponDagger => "weapon_dagger"@,
            Icon::WeaponFlail => "weapon_flail"@,
            Icon::WeaponGrenade => "weapon_grenade"@,
            Icon::WeaponGun => "weapon_gun"@,
            Icon::WeaponHalberd => "weapon_halberd"@,
            Icon::WeaponHammer => "weapon_hammer"@,
            Icon::WeaponKatana => "weapon_katana"@,
            Icon::WeaponLance => "weapon_lance"@,
            Icon::WeaponMace => "weapon_mace"@,
            Icon::WeaponPike => "weapon_pike"@,
            Icon::WeaponQuarterstaff => "weapon_quarterstaff"@,
            Icon::WeaponRapier => "weapon_rapier"@,
            Icon::WeaponScythe => "weapon_scythe"@,
            Icon::WeaponStaff => "weapon_staff"@,
            Icon::WeaponSwordOneHanded => "weapon_sword_one_handed"@,
            Icon::WeaponSwordTwoHanded => "weapon_sword_two_handed"@,
            Icon::WeaponWhip => "weapon_whip"@,
            Icon::WeaponWoodAxe => "weapon_wood_axe"@,
        }
    }

    /// The SVG file name: the snake-case variant name with `.svg` appended.
    pub open spec fn spec_icon_file(self) -> Seq<char> {
        self.spec_name() + ".svg"@
    }

    /// The variant name in snake case.
    pub fn name(&self) -> (r: &'static str)
        ensures
            r@ == self.spec_name(),
    {
        match self {
            Icon::Alteration => "alteration",
            Icon::AmmoArrow => "ammo_arrow",
            Icon::AmmoArrowBodkin => "ammo_arrow_bodkin",
            Icon::AmmoArrowBroadhead => "ammo_arrow_broadhead",
            Icon::AmmoArrowCrescent => "ammo_arrow_crescent",
            Icon::AmmoArrowFire => "ammo_arrow_fire",
            Icon::AmmoArrowHammerhead => "ammo_arrow_hammerhead",
            Icon::AmmoArrowPractice => "ammo_arrow_practice",
            Icon::AmmoArrowWhistle => "ammo_arrow_whistle",
            Icon::AmmoBolt => "ammo_bolt",
            Icon::AmmoBullet => "ammo_bullet",
            Icon::AmmoDart => "ammo_dart",
            Icon::AmmoSlingshot => "ammo_slingshot",
            Icon::ArmorAmulet => "armor_amulet",
            Icon::ArmorBackpack => "armor_backpack",
            Icon::ArmorBelt => "armor_belt",
            Icon::ArmorBracelet => "armor_bracelet",
            Icon::ArmorCirclet => "armor_circlet",
            Icon::ArmorCloak => "armor_cloak",
            Icon::ArmorClothingFeet => "armor_clothing_feet",
            Icon::ArmorClothingHands => "armor_clothing_hands",
            Icon::ArmorClothingHead => "armor_clothing_head",
            Icon::ArmorClothing => "armor_clothing",
            Icon::ArmorEarring => "armor_earring",
            Icon::ArmorHeavyFeet => "armor_heavy_feet",
            Icon::ArmorHeavyHands => "armor_heavy_hands",
            Icon::ArmorHeavyHead => "armor_heavy_head",
            Icon::ArmorHeavy => "armor_heavy",
            Icon::ArmorLightFeet => "armor_light_feet",
            Icon::ArmorLightHands => "armor_light_hands",
            Icon::ArmorLightHead => "armor_light_head",
            Icon::ArmorLight => "armor_light",
            Icon::ArmorMask => "armor_mask",
            Icon::ArmorQuiver => "armor_quiver",
            Icon::ArmorRing => "armor_ring",
            Icon::ArmorRobes => "armor_robes",
            Icon::ArmorShieldHeavy => "armor_shield_heavy",
            Icon::ArmorShieldLight => "armor_shield_light",
            Icon::Conjuration => "conjuration",
            Icon::Destruction => "destruction",
            Icon::DrinkMead => "drink_mead",
            Icon::DrinkTea => "drink_tea",
            Icon::DrinkWater => "drink_water",
            Icon::DrinkWine => "drink_wine",
            Icon::FoodBread => "food_bread",
            Icon::FoodCarrot => "food_carrot",
            Icon::FoodCheese => "food_cheese",
            Icon::FoodFish => "food_fish",
            Icon::FoodMeat => "food_meat",
            Icon::FoodPie => "food_pie",
            Icon::FoodStew => "food_stew",
            Icon::Food => "food",
            Icon::HandToHand => "hand_to_hand",
            Icon::IconDefault => "icon_default",
            Icon::Illusion => "illusion",
            Icon::MiscLantern => "misc_lantern",
            Icon::MiscCampfire => "misc_campfire",
            Icon::MiscLute => "misc_lute",
            Icon::MiscTent => "misc_tent",
            Icon::PotionDefault => "potion_default",
            Icon::PotionHealth => "potion_health",
            Icon::PotionMagicka => "potion_magicka",
            Icon::PotionPoison => "potion_poison",
            Icon::PotionResist => "potion_resist",
            Icon::PotionResistFire => "potion_resist_fire",
            Icon::PotionResistFrost => "potion_resist_frost",
            Icon::PotionResistShock => "potion_resist_shock",
            Icon::PotionSkooma => "potion_skooma",
            Icon::PotionStamina => "potion_stamina",
            Icon::Power => "power",
            Icon::PowerCraft => "power_craft",
            Icon::PowerFillBottles => "power_fill_bottles",
            Icon::PowerHorse => "power_horse",
            Icon::PowerPeek => "power_peek",
            Icon::PowerPray => "power_pray",
            Icon::PowerWash => "power_wash",
            Icon::PowerWerebear => "power_werebear",
            Icon::PowerWerewolf => "power_werewolf",
            Icon::Restoration => "restoration",
            Icon::Scroll => "scroll",
            Icon::Shout => "shout",
            Icon::ShoutAnimalAllegiance => "shout_animal_allegiance",
            Icon::ShoutAuraWhisper => "shout_aura_whisper",
            Icon::ShoutBattleFury => "shout_battle_fury",
            Icon::ShoutBendWill => "shout_bend_will",
            Icon::ShoutBreathAttack => "shout_breath_attack",
            Icon::ShoutCallDragon => "shout_call_dragon",
            Icon::ShoutCallOfValor => "shout_call_of_valor",
            Icon::ShoutClearSkies => "shout_clear_skies",
            Icon::ShoutCyclone => "shout_cyclone",
            Icon::ShoutDisarm => "shout_disarm",
            Icon::ShoutDismay => "shout_dismay",
            Icon::ShoutDragonAspect => "shout_dragon_aspect",
            Icon::ShoutDragonrend => "shout_dragonrend",
            Icon::ShoutDrainVitality => "shout_drain_vitality",
            Icon::ShoutElementalFury => "shout_elemental_fury",
            Icon::ShoutIceForm => "shout_ice_form",
            Icon::ShoutKynesPeace => "shout_kynes_peace",
            Icon::ShoutMarkedForDeath => "shout_marked_for_death",
            Icon::ShoutPhantomForm => "shout_phantom_form",
            Icon::ShoutSlowtime => "shout_slowtime",
            Icon::ShoutSoulTear => "shout_soul_tear",
            Icon::ShoutStormcall => "shout_stormcall",
            Icon::ShoutSummonDurnehviir => "shout_summon_durnehviir",
            Icon::ShoutThrowVoice => "shout_throw_voice",
            Icon::ShoutUnrelentingForce => "shout_unrelenting_force",
            Icon::ShoutWhirlwindSprint => "shout_whirlwind_sprint",
            Icon::ShoutLightningBreath => "shout_lightning_breath",
            Icon::ShoutPoisonBreath => "shout_poison_breath",
            Icon::ShoutAlessiasLove => "shout_alessias_love",
            Icon::ShoutAnnihilate => "shout_annihilate",
            Icon::ShoutArcaneHelix => "shout_arcane_helix",
            Icon::ShoutArmageddon => "shout_armageddon",
            Icon::ShoutCurse => "shout_curse",
            Icon::ShoutDanceOfTheDead => "shout_dance_of_the_dead",
            Icon::ShoutEarthquake => "shout_earthquake",
            Icon::ShoutEssenceRip => "shout_essence_rip",
            Icon::ShoutEvocation => "shout_evocation",
            Icon::ShoutGeomagnetism => "shout_geomagnetism",
            Icon::ShoutIceborn => "shout_iceborn",
            Icon::ShoutJonesShadow => "shout_jones_shadow",
            Icon::ShoutKingsbane => "shout_kingsbane",
            Icon::ShoutLifestream => "shout_lifestream",
            Icon::ShoutLightningShield => "shout_lightning_shield",
            Icon::ShoutOblivion => "shout_oblivion",
            Icon::ShoutPhantomDecoy => "shout_phantom_decoy",
            Icon::ShoutRiftwalk => "shout_riftwalk",
            Icon::ShoutShattersphere => "shout_shattersphere",
            Icon::ShoutShorsWrath => "shout_shors_wrath",
            Icon::ShoutShroudOfSnowfall => "shout_shroud_of_snowfall",
            Icon::ShoutSpeakUntoTheStars => "shout_speak_unto_the_stars",
            Icon::ShoutSplinterTwins => "shout_splinter_twins",
            Icon::ShoutStormblast => "shout_stormblast",
            Icon::ShoutTheConqueror => "shout_the_conqueror",
            Icon::ShoutTrueshot => "shout_trueshot",
            Icon::ShoutWailOfTheBanshee => "shout_wail_of_the_banshee",
            Icon::ShoutWanderlust => "shout_wanderlust",
            Icon::ShoutWarcry => "shout_warcry",
            Icon::SpellArclight => "spell_arclight",
            Icon::SpellBleed => "spell_bleed",
            Icon::SpellCircle => "spell_circle",
            Icon::SpellConstellation => "spell_constellation",
            Icon::SpellControl => "spell_control",
            Icon::SpellCure => "spell_cure",
            Icon::SpellDetect => "spell_detect",
            Icon::SpellEagleEye => "spell_eagle_eye",
            Icon::SpellEarth => "spell_earth",
            Icon::SpellEvade => "spell_evade",
            Icon::SpellFear => "spell_fear",
            Icon::SpellFeather => "spell_feather",
            Icon::SpellFire => "spell_fire",
            Icon::SpellFrost => "spell_frost",
            Icon::SpellHeal => "spell_heal",
            Icon::SpellHoly => "spell_holy",
            Icon::SpellLeaf => "spell_leaf",
            Icon::SpellLeaves => "spell_leaves",
            Icon::SpellLight => "spell_light",
            Icon::SpellLightningBlast => "spell_lightning_blast",
            Icon::SpellMoon => "spell_moon",
            Icon::SpellDesecration => "spell_desecration",
            Icon::SpellParalyze => "spell_paralyze",
            Icon::SpellPoison => "spell_poison",
            Icon::SpellReanimate => "spell_reanimate",
            Icon::SpellReflect => "spell_reflect",
            Icon::SpellRoot => "spell_root",
            Icon::SpellRune => "spell_rune",
            Icon::SpellShadow => "spell_shadow",
            Icon::SpellSharpen => "spell_sharpen",
            Icon::SpellShock => "spell_shock",
            Icon::SpellSilence => "spell_silence",
            Icon::SpellSlow => "spell_slow",
            Icon::SpellSoultrap => "spell_soultrap",
            Icon::SpellSprint => "spell_sprint",
            Icon::SpellStamina => "spell_stamina",
            Icon::SpellStars => "spell_stars",
            Icon::SpellSummon => "spell_summon",
            Icon::SpellSun => "spell_sun",
            Icon::SpellTeleport => "spell_teleport",
            Icon::SpellTime => "spell_time",
            Icon::SpellVampire => "spell_vampire",
            Icon::SpellWard => "spell_ward",
            Icon::SpellWater => "spell_water",
            Icon::SpellWind => "spell_wind",
            Icon::SpellWisp => "spell_wisp",
            Icon::ToolFishingRod => "tool_fishing_rod",
            Icon::ToolPickaxe => "tool_pickaxe",
            Icon::ToolShovel => "tool_shovel",
            Icon::ToolSickle => "tool_sickle",
            Icon::MiscTorch => "misc_torch",
            Icon::WeaponAxeOneHanded => "weapon_axe_one_handed",
            Icon::WeaponAxeTwoHanded => "weapon_axe_two_handed",
            Icon::WeaponBow => "weapon_bow",
            Icon::WeaponClaw => "weapon_claw",
            Icon::WeaponCrossbow => "weapon_crossbow",
            Icon::WeaponDagger => "weapon_dagger",
            Icon::WeaponFlail => "weapon_flail",
            Icon::WeaponGrenade => "weapon_grenade",
            Icon::WeaponGun => "weapon_gun",
            Icon::WeaponHalberd => "weapon_halberd",
            Icon::WeaponHammer => "weapon_hammer",
            Icon::WeaponKatana => "weapon_katana",
            Icon::WeaponLance => "weapon_lance",
            Icon::WeaponMace => "weapon_mace",
            Icon::WeaponPike => "weapon_pike",
            Icon::WeaponQuarterstaff => "weapon_quarterstaff",
            Icon::WeaponRapier => "weapon_rapier",
            Icon::WeaponScythe => "weapon_scythe",
            Icon::WeaponStaff => "weapon_staff",
            Icon::WeaponSwordOneHanded => "weapon_sword_one_handed",
            Icon::WeaponSwordTwoHanded => "weapon_sword_two_handed",
            Icon::WeaponWhip => "weapon_whip",
            Icon::WeaponWoodAxe => "weapon_wood_axe",
        }
    }

    /// Get the SVG filename for this icon.
    pub fn icon_file(&self) -> (r: String)
        ensures
            r@ == self.spec_icon_file(),
    {
        let mut s = String::from_str(self.name());
        s.append(".svg");
        s
    }

    /// The core-set icon this icon falls back to.
    pub open spec fn spec_fallback(self) -> Icon {
        match self {
            Icon::Alteration => Icon::Scroll,
            Icon::AmmoArrow => Icon::AmmoArrow,
            Icon::AmmoArrowBodkin => Icon::AmmoArrow,
            Icon::AmmoArrowBroadhead => Icon::AmmoArrow,
            Icon::AmmoArrowCrescent => Icon::AmmoArrow,
            Icon::AmmoArrowFire => Icon::AmmoArrow,
            Icon::AmmoArrowHammerhead => Icon::AmmoArrow,
            Icon::AmmoArrowPractice => Icon::AmmoArrow,
            Icon::AmmoArrowWhistle => Icon::AmmoArrow,
            Icon::AmmoBolt => Icon::AmmoArrow,
            Icon::AmmoBullet => Icon::AmmoArrow,
            Icon::AmmoDart => Icon::AmmoArrow,
            Icon::AmmoSlingshot => Icon::AmmoArrow,
            Icon::ArmorAmulet => Icon::ArmorHeavy,
            Icon::ArmorBackpack => Icon::ArmorHeavy,
            Icon::ArmorBelt => Icon::ArmorHeavy,
            Icon::ArmorBracelet => Icon::ArmorHeavy,
            Icon::ArmorCirclet => Icon::ArmorHeavy,
            Icon::ArmorCloak => Icon::ArmorHeavy,
            Icon::ArmorClothingFeet => Icon::ArmorHeavy,
            Icon::ArmorClothingHands => Icon::ArmorHeavy,
            Icon::ArmorClothingHead => Icon::ArmorHeavy,
            Icon::ArmorClothing => Icon::ArmorHeavy,
            Icon::ArmorEarring => Icon::ArmorHeavy,
            Icon::ArmorHeavyFeet => Icon::ArmorHeavy,
            Icon::ArmorHeavyHands => Icon::ArmorHeavy,
            Icon::ArmorHeavyHead => Icon::ArmorHeavy,
            Icon::ArmorHeavy => Icon::ArmorHeavy,
            Icon::ArmorLightFeet => Icon::ArmorHeavy,
            Icon::ArmorLightHands => Icon::ArmorHeavy,
            Icon::ArmorLightHead => Icon::ArmorHeavy,
            Icon::ArmorLight => Icon::ArmorHeavy,
            Icon::ArmorMask => Icon::ArmorHeavy,
            Icon::ArmorQuiver => Icon::ArmorHeavy,
            Icon::ArmorRing => Icon::ArmorHeavy,
            Icon::ArmorRobes => Icon::ArmorHeavy,
            Icon::ArmorShieldHeavy => Icon::ArmorHeavy,
            Icon::ArmorShieldLight => Icon::ArmorHeavy,
            Icon::Conjuration => Icon::Scroll,
            Icon::Destruction => Icon::Scroll,
            Icon::DrinkMead => Icon::Food,
            Icon::DrinkTea => Icon::Food,
            Icon::DrinkWater => Icon::Food,
            Icon::DrinkWine => Icon::Food,
            Icon::FoodBread => Icon::Food,
            Icon::FoodCarrot => Icon::Food,
            Icon::FoodCheese => Icon::Food,
            Icon::FoodFish => Icon::Food,
            Icon::FoodMeat => Icon::Food,
            Icon::FoodPie => Icon::Food,
            Icon::FoodStew => Icon::Food,
            Icon::Food => Icon::Food,
            Icon::HandToHand => Icon::HandToHand,
            Icon::IconDefault => Icon::IconDefault,
            Icon::Illusion => Icon::Scroll,
            Icon::MiscLantern => Icon::MiscLantern,
            Icon::MiscCampfire => Icon::IconDefault,
            Icon::MiscLute => Icon::IconDefault,
            Icon::MiscTent => Icon::IconDefault,
            Icon::PotionDefault => Icon::PotionDefault,
            Icon::PotionHealth => Icon::PotionDefault,
            Icon::PotionMagicka => Icon::PotionDefault,
            Icon::PotionPoison => Icon::PotionDefault,
            Icon::PotionResist => Icon::PotionDefault,
            Icon::PotionResistFire => Icon::PotionDefault,
            Icon::PotionResistFrost => Icon::PotionDefault,
            Icon::PotionResistShock => Icon::PotionDefault,
            Icon::PotionSkooma => Icon::PotionDefault,
            Icon::PotionStamina => Icon::PotionDefault,
            Icon::Power => Icon::Power,
            Icon::PowerCraft => Icon::Power,
            Icon::PowerFillBottles => Icon::Power,
            Icon::PowerHorse => Icon::Power,
            Icon::PowerPeek => Icon::Power,
            Icon::PowerPray => Icon::Power,
            Icon::PowerWash => Icon::Power,
            Icon::PowerWerebear => Icon::Power,
            Icon::PowerWerewolf => Icon::Power,
            Icon::Restoration => Icon::Scroll,
            Icon::Scroll => Icon::Scroll,
            Icon::Shout => Icon::Shout,
            Icon::ShoutAnimalAllegiance => Icon::Shout,
            Icon::ShoutAuraWhisper => Icon::Shout,
            Icon::ShoutBattleFury => Icon::Shout,
            Icon::ShoutBendWill => Icon::Shout,
            Icon::ShoutBreathAttack => Icon::Shout,
            Icon::ShoutCallDragon => Icon::Shout,
            Icon::ShoutCallOfValor => Icon::Shout,
            Icon::ShoutClearSkies => Icon::Shout,
            Icon::ShoutCyclone => Icon::Shout,
            Icon::ShoutDisarm => Icon::Shout,
            Icon::ShoutDismay => Icon::Shout,
            Icon::ShoutDragonAspect => Icon::Shout,
            Icon::ShoutDragonrend => Icon::Shout,
            Icon::ShoutDrainVitality => Icon::Shout,
            Icon::ShoutElementalFury => Icon::Shout,
            Icon::ShoutIceForm => Icon::Shout,
            Icon::ShoutKynesPeace => Icon::Shout,
            Icon::ShoutMarkedForDeath => Icon::Shout,
            Icon::ShoutPhantomForm => Icon::Shout,
            Icon::ShoutSlowtime => Icon::Shout,
            Icon::ShoutSoulTear => Icon::Shout,
            Icon::ShoutStormcall => Icon::Shout,
            Icon::ShoutSummonDurnehviir => Icon::Shout,
            Icon::ShoutThrowVoice => Icon::Shout,
            Icon::ShoutUnrelentingForce => Icon::Shout,
            Icon::ShoutWhirlwindSprint => Icon::Shout,
            Icon::ShoutLightningBreath => Icon::Shout,
            Icon::ShoutPoisonBreath => Icon::Shout,
            Icon::ShoutAlessiasLove => Icon::Shout,
            Icon::ShoutAnnihilate => Icon::Shout,
            Icon::ShoutArcaneHelix => Icon::Shout,
            Icon::ShoutArmageddon => Icon::Shout,
            Icon::ShoutCurse => Icon::Shout,
            Icon::ShoutDanceOfTheDead => Icon::Shout,
            Icon::ShoutEarthquake => Icon::Shout,
            Icon::ShoutEssenceRip => Icon::Shout,
            Icon::ShoutEvocation => Icon::Shout,
            Icon::ShoutGeomagnetism => Icon::Shout,
            Icon::ShoutIceborn => Icon::Shout,
            Icon::ShoutJonesShadow => Icon::Shout,
            Icon::ShoutKingsbane => Icon::Shout,
            Icon::ShoutLifestream => Icon::Shout,
            Icon::ShoutLightningShield => Icon::Shout,
            Icon::ShoutOblivion => Icon::Shout,
            Icon::ShoutPhantomDecoy => Icon::Shout,
            Icon::ShoutRiftwalk => Icon::Shout,
            Icon::ShoutShattersphere => Icon::Shout,
            Icon::ShoutShorsWrath => Icon::Shout,
            Icon::ShoutShroudOfSnowfall => Icon::Shout,
            Icon::ShoutSpeakUntoTheStars => Icon::Shout,
            Icon::ShoutSplinterTwins => Icon::Shout,
            Icon::ShoutStormblast => Icon::Shout,
            Icon::ShoutTheConqueror => Icon::Shout,
            Icon::ShoutTrueshot => Icon::Shout,
            Icon::ShoutWailOfTheBanshee => Icon::Shout,
            Icon::ShoutWanderlust => Icon::Shout,
            Icon::ShoutWarcry => Icon::Shout,
            Icon::SpellArclight => Icon::Destruction,
            Icon::SpellBleed => Icon::Destruction,
            Icon::SpellCircle => Icon::Restoration,
            Icon::SpellConstellation => Icon::Destruction,
            Icon::SpellControl => Icon::Illusion,
            Icon::SpellCure => Icon::Restoration,
            Icon::SpellDetect => Icon::Alteration,
            Icon::SpellEagleEye => Icon::Alteration,
            Icon::SpellEarth => Icon::Destruction,
            Icon::SpellEvade => Icon::Illusion,
            Icon::SpellFear => Icon::Illusion,
            Icon::SpellFeather => Icon::Alteration,
            Icon::SpellFire => Icon::Destruction,
            Icon::SpellFrost => Icon::Destruction,
            Icon::SpellHeal => Icon::Restoration,
            Icon::SpellHoly => Icon::Restoration,
            Icon::SpellLeaf => Icon::Restoration,
            Icon::SpellLeaves => Icon::Restoration,
            Icon::SpellLight => Icon::Alteration,
            Icon::SpellLightningBlast => Icon::Destruction,
            Icon::SpellMoon => Icon::Destruction,
            Icon::SpellDesecration => Icon::Destruction,
            Icon::SpellParalyze => Icon::Alteration,
            Icon::SpellPoison => Icon::Restoration,
            Icon::SpellReanimate => Icon::Conjuration,
            Icon::SpellReflect => Icon::Alteration,
            Icon::SpellRoot => Icon::Restoration,
            Icon::SpellRune => Icon::Destruction,
            Icon::SpellShadow => Icon::Destruction,
            Icon::SpellSharpen => Icon::Alteration,
            Icon::SpellShock => Icon::Destruction,
            Icon::SpellSilence => Icon::Illusion,
            Icon::SpellSlow => Icon::Alteration,
            Icon::SpellSoultrap => Icon::Conjuration,
            Icon::SpellSprint => Icon::Alteration,
            Icon::SpellStamina => Icon::Restoration,
            Icon::SpellStars => Icon::Destruction,
            Icon::SpellSummon => Icon::Conjuration,
            Icon::SpellSun => Icon::Restoration,
            Icon::SpellTeleport => Icon::Alteration,
            Icon::SpellTime => Icon::Alteration,
            Icon::SpellVampire => Icon::Destruction,
            Icon::SpellWard => Icon::Restoration,
            Icon::SpellWater => Icon::Destruction,
            Icon::SpellWind => Icon::Destruction,
            Icon::SpellWisp => Icon::Illusion,
            Icon::ToolFishingRod => Icon::WeaponSwordOneHanded,
            Icon::ToolPickaxe => Icon::WeaponAxeTwoHanded,
            Icon::ToolShovel => Icon::IconDefault,
            Icon::ToolSickle => Icon::IconDefault,
            Icon::MiscTorch => Icon::MiscTorch,
            Icon::WeaponAxeOneHanded => Icon::WeaponAxeOneHanded,
            Icon::WeaponAxeTwoHanded => Icon::WeaponAxeTwoHanded,
            Icon::WeaponBow => Icon::WeaponBow,
            Icon::WeaponClaw => Icon::WeaponSwordOneHanded,
            Icon::WeaponCrossbow => Icon::WeaponCrossbow,
            Icon::WeaponDagger => Icon::WeaponDagger,
            Icon::WeaponFlail => Icon::WeaponMace,
            Icon::WeaponGrenade => Icon::WeaponDagger,
            Icon::WeaponGun => Icon::WeaponBow,
            Icon::WeaponHalberd => Icon::WeaponHalberd,
            Icon::WeaponHammer => Icon::WeaponMace,
            Icon::WeaponKatana => Icon::WeaponSwordOneHanded,
            Icon::WeaponLance => Icon::WeaponHalberd,
            Icon::WeaponMace => Icon::WeaponMace,
            Icon::WeaponPike => Icon::WeaponAxeTwoHanded,
            Icon::WeaponQuarterstaff => Icon::WeaponQuarterstaff,
            Icon::WeaponRapier => Icon::WeaponRapier,
            Icon::WeaponScythe => Icon::WeaponHalberd,
            Icon::WeaponStaff => Icon::WeaponStaff,
            Icon::WeaponSwordOneHanded => Icon::WeaponAxeOneHanded,
            Icon::WeaponSwordTwoHanded => Icon::WeaponAxeTwoHanded,
            Icon::WeaponWhip => Icon::WeaponWhip,
            Icon::WeaponWoodAxe => Icon::WeaponAxeOneHanded,
        }
    }

    /// Fall back from any icon to one in the core set guaranteed to come with the base HUD.
    pub fn fallback(&self) -> (r: Icon)
        ensures
            r == self.spec_fallback(),
    {
        match self {
            Icon::Alteration => Icon::Scroll,
            Icon::AmmoArrow => Icon::AmmoArrow,
            Icon::AmmoArrowBodkin => Icon::AmmoArrow,
            Icon::AmmoArrowBroadhead => Icon::AmmoArrow,
            Icon::AmmoArrowCrescent => Icon::AmmoArrow,
            Icon::AmmoArrowFire => Icon::AmmoArrow,
            Icon::AmmoArrowHammerhead => Icon::AmmoArrow,
            Icon::AmmoArrowPractice => Icon::AmmoArrow,
            Icon::AmmoArrowWhistle => Icon::AmmoArrow,
            Icon::AmmoBolt => Icon::AmmoArrow,
            Icon::AmmoBullet => Icon::AmmoArrow,
            Icon::AmmoDart => Icon::AmmoArrow,
            Icon::AmmoSlingshot => Icon::AmmoArrow,
            Icon::ArmorAmulet => Icon::ArmorHeavy,
            Icon::ArmorBackpack => Icon::ArmorHeavy,
            Icon::ArmorBelt => Icon::ArmorHeavy,
            Icon::ArmorBracelet => Icon::ArmorHeavy,
            Icon::ArmorCirclet => Icon::ArmorHeavy,
            Icon::ArmorCloak => Icon::ArmorHeavy,
            Icon::ArmorClothingFeet => Icon::ArmorHeavy,
            Icon::ArmorClothingHands => Icon::ArmorHeavy,
            Icon::ArmorClothingHead => Icon::ArmorHeavy,
            Icon::ArmorClothing => Icon::ArmorHeavy,
            Icon::ArmorEarring => Icon::ArmorHeavy,
            Icon::ArmorHeavyFeet => Icon::ArmorHeavy,
            Icon::ArmorHeavyHands => Icon::ArmorHeavy,
            Icon::ArmorHeavyHead => Icon::ArmorHeavy,
            Icon::ArmorHeavy => Icon::ArmorHeavy,
            Icon::ArmorLightFeet => Icon::ArmorHeavy,
            Icon::ArmorLightHands => Icon::ArmorHeavy,
            Icon::ArmorLightHead => Icon::ArmorHeavy,
            Icon::ArmorLight => Icon::ArmorHeavy,
            Icon::ArmorMask => Icon::ArmorHeavy,
            Icon::ArmorQuiver => Icon::ArmorHeavy,
            Icon::ArmorRing => Icon::ArmorHeavy,
            Icon::ArmorRobes => Icon::ArmorHeavy,
            Icon::ArmorShieldHeavy => Icon::ArmorHeavy,
            Icon::ArmorShieldLight => Icon::ArmorHeavy,
            Icon::Conjuration => Icon::Scroll,
            Icon::Destruction => Icon::Scroll,
            Icon::DrinkMead => Icon::Food,
            Icon::DrinkTea => Icon::Food,
            Icon::DrinkWater => Icon::Food,
            Icon::DrinkWine => Icon::Food,
            Icon::FoodBread => Icon::Food,
            Icon::FoodCarrot => Icon::Food,
            Icon::FoodCheese => Icon::Food,
            Icon::FoodFish => Icon::Food,
            Icon::FoodMeat => Icon::Food,
            Icon::FoodPie => Icon::Food,
            Icon::FoodStew => Icon::Food,
            Icon::Food => Icon::Food,
            Icon::HandToHand => Icon::HandToHand,
            Icon::IconDefault => Icon::IconDefault,
            Icon::Illusion => Icon::Scroll,
            Icon::MiscLantern => Icon::MiscLantern,
            Icon::MiscCampfire => Icon::IconDefault,
            Icon::MiscLute => Icon::IconDefault,
            Icon::MiscTent => Icon::IconDefault,
            Icon::PotionDefault => Icon::PotionDefault,
            Icon::PotionHealth => Icon::PotionDefault,
            Icon::PotionMagicka => Icon::PotionDefault,
            Icon::PotionPoison => Icon::PotionDefault,
            Icon::PotionResist => Icon::PotionDefault,
            Icon::PotionResistFire => Icon::PotionDefault,
            Icon::PotionResistFrost => Icon::PotionDefault,
            Icon::PotionResistShock => Icon::PotionDefault,
            Icon::PotionSkooma => Icon::PotionDefault,
            Icon::PotionStamina => Icon::PotionDefault,
            Icon::Power => Icon::Power,
            Icon::PowerCraft => Icon::Power,
            Icon::PowerFillBottles => Icon::Power,
            Icon::PowerHorse => Icon::Power,
            Icon::PowerPeek => Icon::Power,
            Icon::PowerPray => Icon::Power,
            Icon::PowerWash => Icon::Power,
            Icon::PowerWerebear => Icon::Power,
            Icon::PowerWerewolf => Icon::Power,
            Icon::Restoration => Icon::Scroll,
            Icon::Scroll => Icon::Scroll,
            Icon::Shout => Icon::Shout,
            Icon::ShoutAnimalAllegiance => Icon::Shout,
            Icon::ShoutAuraWhisper => Icon::Shout,
            Icon::ShoutBattleFury => Icon::Shout,
            Icon::ShoutBendWill => Icon::Shout,
            Icon::ShoutBreathAttack => Icon::Shout,
            Icon::ShoutCallDragon => Icon::Shout,
            Icon::ShoutCallOfValor => Icon::Shout,
            Icon::ShoutClearSkies => Icon::Shout,
            Icon::ShoutCyclone => Icon::Shout,
            Icon::ShoutDisarm => Icon::Shout,
            Icon::ShoutDismay => Icon::Shout,
            Icon::ShoutDragonAspect => Icon::Shout,
            Icon::ShoutDragonrend => Icon::Shout,
            Icon::ShoutDrainVitality => Icon::Shout,
            Icon::ShoutElementalFury => Icon::Shout,
            Icon::ShoutIceForm => Icon::Shout,
            Icon::ShoutKynesPeace => Icon::Shout,
            Icon::ShoutMarkedForDeath => Icon::Shout,
            Icon::ShoutPhantomForm => Icon::Shout,
            Icon::ShoutSlowtime => Icon::Shout,
            Icon::ShoutSoulTear => Icon::Shout,
            Icon::ShoutStormcall => Icon::Shout,
            Icon::ShoutSummonDurnehviir => Icon::Shout,
            Icon::ShoutThrowVoice => Icon::Shout,
            Icon::ShoutUnrelentingForce => Icon::Shout,
            Icon::ShoutWhirlwindSprint => Icon::Shout,
            Icon::ShoutLightningBreath => Icon::Shout,
            Icon::ShoutPoisonBreath => Icon::Shout,
            Icon::ShoutAlessiasLove => Icon::Shout,
            Icon::ShoutAnnihilate => Icon::Shout,
            Icon::ShoutArcaneHelix => Icon::Shout,
            Icon::ShoutArmageddon => Icon::Shout,
            Icon::ShoutCurse => Icon::Shout,
            Icon::ShoutDanceOfTheDead => Icon::Shout,
            Icon::ShoutEarthquake => Icon::Shout,
            Icon::ShoutEssenceRip => Icon::Shout,
            Icon::ShoutEvocation => Icon::Shout,
            Icon::ShoutGeomagnetism => Icon::Shout,
            Icon::ShoutIceborn => Icon::Shout,
            Icon::ShoutJonesShadow => Icon::Shout,
            Icon::ShoutKingsbane => Icon::Shout,
            Icon::ShoutLifestream => Icon::Shout,
            Icon::ShoutLightningShield => Icon::Shout,
            Icon::ShoutOblivion => Icon::Shout,
            Icon::ShoutPhantomDecoy => Icon::Shout,
            Icon::ShoutRiftwalk => Icon::Shout,
            Icon::ShoutShattersphere => Icon::Shout,
            Icon::ShoutShorsWrath => Icon::Shout,
            Icon::ShoutShroudOfSnowfall => Icon::Shout,
            Icon::ShoutSpeakUntoTheStars => Icon::Shout,
            Icon::ShoutSplinterTwins => Icon::Shout,
            Icon::ShoutStormblast => Icon::Shout,
            Icon::ShoutTheConqueror => Icon::Shout,
            Icon::ShoutTrueshot => Icon::Shout,
            Icon::ShoutWailOfTheBanshee => Icon::Shout,
            Icon::ShoutWanderlust => Icon::Shout,
            Icon::ShoutWarcry => Icon::Shout,
            Icon::SpellArclight => Icon::Destruction,
            Icon::SpellBleed => Icon::Destruction,
            Icon::SpellCircle => Icon::Restoration,
            Icon::SpellConstellation => Icon::Destruction,
            Icon::SpellControl => Icon::Illusion,
            Icon::SpellCure => Icon::Restoration,
            Icon::SpellDetect => Icon::Alteration,
            Icon::SpellEagleEye => Icon::Alteration,
            Icon::SpellEarth => Icon::Destruction,
            Icon::SpellEvade => Icon::Illusion,
            Icon::SpellFear => Icon::Illusion,
            Icon::SpellFeather => Icon::Alteration,
            Icon::SpellFire => Icon::Destruction,
            Icon::SpellFrost => Icon::Destruction,
            Icon::SpellHeal => Icon::Restoration,
            Icon::SpellHoly => Icon::Restoration,
            Icon::SpellLeaf => Icon::Restoration,
            Icon::SpellLeaves => Icon::Restoration,
            Icon::SpellLight => Icon::Alteration,
            Icon::SpellLightningBlast => Icon::Destruction,
            Icon::SpellMoon => Icon::Destruction,
            Icon::SpellDesecration => Icon::Destruction,
            Icon::SpellParalyze => Icon::Alteration,
            Icon::SpellPoison => Icon::Restoration,
            Icon::SpellReanimate => Icon::Conjuration,
            Icon::SpellReflect => Icon::Alteration,
            Icon::SpellRoot => Icon::Restoration,
            Icon::SpellRune => Icon::Destruction,
            Icon::SpellShadow => Icon::Destruction,
            Icon::SpellSharpen => Icon::Alteration,
            Icon::SpellShock => Icon::Destruction,
            Icon::SpellSilence => Icon::Illusion,
            Icon::SpellSlow => Icon::Alteration,
            Icon::SpellSoultrap => Icon::Conjuration,
            Icon::SpellSprint => Icon::Alteration,
            Icon::SpellStamina => Icon::Restoration,
            Icon::SpellStars => Icon::Destruction,
            Icon::SpellSummon => Icon::Conjuration,
            Icon::SpellSun => Icon::Restoration,
            Icon::SpellTeleport => Icon::Alteration,
            Icon::SpellTime => Icon::Alteration,
            Icon::SpellVampire => Icon::Destruction,
            Icon::SpellWard => Icon::Restoration,
            Icon::SpellWater => Icon::Destruction,
            Icon::SpellWind => Icon::Destruction,
            Icon::SpellWisp => Icon::Illusion,
            Icon::ToolFishingRod => Icon::WeaponSwordOneHanded,
            Icon::ToolPickaxe => Icon::WeaponAxeTwoHanded,
            Icon::ToolShovel => Icon::IconDefault,
            Icon::ToolSickle => Icon::IconDefault,
            Icon::MiscTorch => Icon::MiscTorch,
            Icon::WeaponAxeOneHanded => Icon::WeaponAxeOneHanded,
            Icon::WeaponAxeTwoHanded => Icon::WeaponAxeTwoHanded,
            Icon::WeaponBow => Icon::WeaponBow,
            Icon::WeaponClaw => Icon::WeaponSwordOneHanded,
            Icon::WeaponCrossbow => Icon::WeaponCrossbow,
            Icon::WeaponDagger => Icon::WeaponDagger,
            Icon::WeaponFlail => Icon::WeaponMace,
            Icon::WeaponGrenade => Icon::WeaponDagger,
            Icon::WeaponGun => Icon::WeaponBow,
            Icon::WeaponHalberd => Icon::WeaponHalberd,
            Icon::WeaponHammer => Icon::WeaponMace,
            Icon::WeaponKatana => Icon::WeaponSwordOneHanded,
            Icon::WeaponLance => Icon::WeaponHalberd,
            Icon::WeaponMace => Icon::WeaponMace,
            Icon::WeaponPike => Icon::WeaponAxeTwoHanded,
            Icon::WeaponQuarterstaff => Icon::WeaponQuarterstaff,
            Icon::WeaponRapier => Icon::WeaponRapier,
            Icon::WeaponScythe => Icon::WeaponHalberd,
            Icon::WeaponStaff => Icon::WeaponStaff,
            Icon::WeaponSwordOneHanded => Icon::WeaponAxeOneHanded,
            Icon::WeaponSwordTwoHanded => Icon::WeaponAxeTwoHanded,
            Icon::WeaponWhip => Icon::WeaponWhip,
            Icon::WeaponWoodAxe => Icon::WeaponAxeOneHanded,
        }
    }
}

/// The icons of the core set, which ship with the base HUD.
pub open spec fn spec_is_in_core_set(icon: Icon) -> bool {
    match icon {
        Icon::Alteration | Icon::AmmoArrow | Icon::ArmorClothing | Icon::ArmorHeavy | Icon::ArmorLight | Icon::ArmorMask | Icon::ArmorShieldHeavy | Icon::Conjuration | Icon::Destruction | Icon::Food | Icon::HandToHand | Icon::IconDefault | Icon::Illusion | Icon::PotionDefault | Icon::PotionHealth | Icon::PotionMagicka | Icon::PotionPoison | Icon::PotionResistFire | Icon::PotionResistFrost | Icon::PotionResistShock | Icon::PotionStamina | Icon::Power | Icon::Restoration | Icon::Scroll | Icon::Shout | Icon::MiscLantern | Icon::MiscTorch | Icon::SpellFire | Icon::SpellFrost | Icon::SpellShock | Icon::WeaponAxeOneHanded | Icon::WeaponAxeTwoHanded | Icon::WeaponBow | Icon::WeaponClaw | Icon::WeaponCrossbow | Icon::WeaponDagger | Icon::WeaponHalberd | Icon::WeaponKatana | Icon::WeaponMace | Icon::WeaponPike | Icon::WeaponQuarterstaff | Icon::WeaponRapier | Icon::WeaponStaff | Icon::WeaponSwordOneHanded | Icon::WeaponSwordTwoHanded | Icon::WeaponWhip => true,
        _ => false,
    }
}

/// Check if an icon is in the core set.
pub fn is_in_core_set(icon: &Icon) -> (r: bool)
    ensures
        r == spec_is_in_core_set(*icon),
{
    match icon {
        Icon::Alteration | Icon::AmmoArrow | Icon::ArmorClothing | Icon::ArmorHeavy | Icon::ArmorLight | Icon::ArmorMask | Icon::ArmorShieldHeavy | Icon::Conjuration | Icon::Destruction | Icon::Food | Icon::HandToHand | Icon::IconDefault | Icon::Illusion | Icon::PotionDefault | Icon::PotionHealth | Icon::PotionMagicka | Icon::PotionPoison | Icon::PotionResistFire | Icon::PotionResistFrost | Icon::PotionResistShock | Icon::PotionStamina | Icon::Power | Icon::Restoration | Icon::Scroll | Icon::Shout | Icon::MiscLantern | Icon::MiscTorch | Icon::SpellFire | Icon::SpellFrost | Icon::SpellShock | Icon::WeaponAxeOneHanded | Icon::WeaponAxeTwoHanded | Icon::WeaponBow | Icon::WeaponClaw | Icon::WeaponCrossbow | Icon::WeaponDagger | Icon::WeaponHalberd | Icon::WeaponKatana | Icon::WeaponMace | Icon::WeaponPike | Icon::WeaponQuarterstaff | Icon::WeaponRapier | Icon::WeaponStaff | Icon::WeaponSwordOneHanded | Icon::WeaponSwordTwoHanded | Icon::WeaponWhip => true,
        _ => false,
    }
}

/// Every icon falls back to an icon of the core set.
pub proof fn lemma_fallback_in_core_set(icon: Icon)
    ensures
        spec_is_in_core_set(icon.spec_fallback()),
{
}

} // verus!
