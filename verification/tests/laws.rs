use soulsy::controller::entrykind::EntryKind;
use soulsy::controller::cycles::CycleData;
use soulsy::controller::itemkind::ItemKind;
use soulsy::controller::keys::CycleSlot;
use soulsy::data::base::BaseType;
use soulsy::data::color::InvColor;
use soulsy::data::magic::MagicSpellLevel;
use soulsy::data::weapon::{WeaponEquipType, WeaponType};
use soulsy::data::IsHudItem;
use soulsy::images::icons::{is_in_core_set, Icon};

fn rank(level: MagicSpellLevel) -> u32 {
    match level {
        MagicSpellLevel::Novice => 0,
        MagicSpellLevel::Apprentice => 1,
        MagicSpellLevel::Adept => 2,
        MagicSpellLevel::Expert => 3,
        MagicSpellLevel::Master => 4,
    }
}

#[test]
fn spell_levels_rise_with_the_skill_needed() {
    let skills = [0u32, 24, 25, 49, 50, 74, 75, 99, 100, 250];
    for pair in skills.windows(2) {
        let low = rank(MagicSpellLevel::from(pair[0]));
        let high = rank(MagicSpellLevel::from(pair[1]));
        assert!(low <= high, "{} then {}", pair[0], pair[1]);
    }
    assert_eq!(MagicSpellLevel::from(0), MagicSpellLevel::Novice);
    assert_eq!(MagicSpellLevel::from(100), MagicSpellLevel::Master);
}

#[test]
fn inventory_colors_are_opaque() {
    for c in [InvColor::Aedric, InvColor::Ash, InvColor::Black, InvColor::White, InvColor::Red] {
        assert_eq!(c.color().a, 255);
    }
}

#[test]
fn icons_fall_back_into_the_core_set() {
    for icon in [Icon::ArmorHeavyFeet, Icon::ArmorHeavyHands, Icon::WeaponSwordOneHanded, Icon::IconDefault] {
        assert!(is_in_core_set(&icon.fallback()));
    }
}

#[test]
fn hand_items_stay_out_of_the_utility_cycle() {
    let sword = BaseType::Weapon(WeaponType::new(
        Icon::WeaponSwordOneHanded,
        InvColor::White,
        WeaponEquipType::EitherHand,
    ));
    assert!(sword.left_hand_ok() && sword.right_hand_ok());
    assert!(!sword.is_utility());
    let greatsword = BaseType::Weapon(WeaponType::new(
        Icon::WeaponSwordTwoHanded,
        InvColor::White,
        WeaponEquipType::TwoHanded,
    ));
    assert!(greatsword.two_handed());
    assert!(!greatsword.left_hand_ok());
    assert!(!BaseType::Power.left_hand_ok() && !BaseType::Power.is_utility());
}

#[test]
fn item_kinds_fall_back_twice_to_the_default_and_unknown_bytes_are_empty() {
    for kind in [ItemKind::ArmorHeavyFeet, ItemKind::DestructionFireAdept, ItemKind::SwordOneHanded, ItemKind::Empty] {
        assert_eq!(*kind.fallback_kind().fallback_kind(), ItemKind::IconDefault);
        assert_ne!(kind.fallback_kind().icon_file(), "default_icon.svg");
    }
    assert_eq!(ItemKind::from(50u8), ItemKind::Empty);
    assert_eq!(ItemKind::from(255u8), ItemKind::Empty);
    assert!(ItemKind::SwordOneHanded.is_one_handed_weapon() && ItemKind::SwordOneHanded.is_weapon());
    assert!(!ItemKind::Shield.right_hand_ok() && !ItemKind::Torch.right_hand_ok());
    assert!(ItemKind::PotionHealth.is_utility() && ItemKind::ArmorHeavy.is_utility());
}

#[test]
fn cycles_hold_each_entry_once_and_turn_full_circle() {
    let mut c = CycleData::default();
    assert!(c.add_item(CycleSlot::Left, "a"));
    assert!(c.add_item(CycleSlot::Left, "b"));
    assert!(c.add_item(CycleSlot::Left, "c"));
    assert!(!c.add_item(CycleSlot::Left, "b"));
    assert_eq!(c.formids(&CycleSlot::Left), vec!["a", "b", "c"]);
    c.advance(&CycleSlot::Left, 3);
    assert_eq!(c.formids(&CycleSlot::Left), vec!["a", "b", "c"]);
    c.advance(&CycleSlot::Left, 0);
    assert_eq!(c.formids(&CycleSlot::Left), vec!["a", "b", "c"]);
    assert!(c.remove_item(CycleSlot::Left, "b"));
    assert!(!c.includes(&CycleSlot::Left, "b"));
}

#[test]
fn every_weapon_entry_is_a_weapon() {
    for k in [EntryKind::SwordTwoHanded, EntryKind::WeaponDefault, EntryKind::AxeTwoHanded, EntryKind::Dagger] {
        assert!(k.is_weapon());
    }
    assert!(!EntryKind::Shield.is_weapon());
    assert!(!EntryKind::Arrow.is_weapon());
}

#[test]
fn validate_fallbacks() {
    // Every icon falls back to an icon of the core set. (Which icon files
    // ship in the core set is checked against the installer, not here.)
    let icons = vec![
        Icon::Alteration,
        Icon::AmmoArrow,
        Icon::AmmoArrowBodkin,
        Icon::AmmoArrowBroadhead,
        Icon::AmmoArrowCrescent,
        Icon::AmmoArrowFire,
        Icon::AmmoArrowHammerhead,
        Icon::AmmoArrowPractice,
        Icon::AmmoArrowWhistle,
        Icon::AmmoBolt,
        Icon::AmmoBullet,
        Icon::AmmoDart,
        Icon::AmmoSlingshot,
        Icon::ArmorAmulet,
        Icon::ArmorBackpack,
        Icon::ArmorBelt,
        Icon::ArmorBracelet,
        Icon::ArmorCirclet,
        Icon::ArmorCloak,
        Icon::ArmorClothingFeet,
        Icon::ArmorClothingHands,
        Icon::ArmorClothingHead,
        Icon::ArmorClothing,
        Icon::ArmorEarring,
        Icon::ArmorHeavyFeet,
        Icon::ArmorHeavyHands,
        Icon::ArmorHeavyHead,
        Icon::ArmorHeavy,
        Icon::ArmorLightFeet,
        Icon::ArmorLightHands,
        Icon::ArmorLightHead,
        Icon::ArmorLight,
        Icon::ArmorMask,
        Icon::ArmorQuiver,
        Icon::ArmorRing,
        Icon::ArmorRobes,
        Icon::ArmorShieldHeavy,
        Icon::ArmorShieldLight,
        Icon::Conjuration,
        Icon::Destruction,
        Icon::DrinkMead,
        Icon::DrinkTea,
        Icon::DrinkWater,
        Icon::DrinkWine,
        Icon::FoodBread,
        Icon::FoodCarrot,
        Icon::FoodCheese,
        Icon::FoodFish,
        Icon::FoodMeat,
        Icon::FoodPie,
        Icon::FoodStew,
        Icon::Food,
        Icon::HandToHand,
        Icon::IconDefault,
        Icon::Illusion,
        Icon::MiscLantern,
        Icon::MiscCampfire,
        Icon::MiscLute,
        Icon::MiscTent,
        Icon::PotionDefault,
        Icon::PotionHealth,
        Icon::PotionMagicka,
        Icon::PotionPoison,
        Icon::PotionResist,
        Icon::PotionResistFire,
        Icon::PotionResistFrost,
        Icon::PotionResistShock,
        Icon::PotionSkooma,
        Icon::PotionStamina,
        Icon::Power,
        Icon::PowerCraft,
        Icon::PowerFillBottles,
        Icon::PowerHorse,
        Icon::PowerPeek,
        Icon::PowerPray,
        Icon::PowerWash,
        Icon::PowerWerebear,
        Icon::PowerWerewolf,
        Icon::Restoration,
        Icon::Scroll,
        Icon::Shout,
        Icon::ShoutAnimalAllegiance,
        Icon::ShoutAuraWhisper,
        Icon::ShoutBattleFury,
        Icon::ShoutBendWill,
        Icon::ShoutBreathAttack,
        Icon::ShoutCallDragon,
        Icon::ShoutCallOfValor,
        Icon::ShoutClearSkies,
        Icon::ShoutCyclone,
        Icon::ShoutDisarm,
        Icon::ShoutDismay,
        Icon::ShoutDragonAspect,
        Icon::ShoutDragonrend,
        Icon::ShoutDrainVitality,
        Icon::ShoutElementalFury,
        Icon::ShoutIceForm,
        Icon::ShoutKynesPeace,
        Icon::ShoutMarkedForDeath,
        Icon::ShoutPhantomForm,
        Icon::ShoutSlowtime,
        Icon::ShoutSoulTear,
        Icon::ShoutStormcall,
        Icon::ShoutSummonDurnehviir,
        Icon::ShoutThrowVoice,
        Icon::ShoutUnrelentingForce,
        Icon::ShoutWhirlwindSprint,
        Icon::ShoutLightningBreath,
        Icon::ShoutPoisonBreath,
        Icon::ShoutAlessiasLove,
        Icon::ShoutAnnihilate,
        Icon::ShoutArcaneHelix,
        Icon::ShoutArmageddon,
        Icon::ShoutCurse,
        Icon::ShoutDanceOfTheDead,
        Icon::ShoutEarthquake,
        Icon::ShoutEssenceRip,
        Icon::ShoutEvocation,
        Icon::ShoutGeomagnetism,
        Icon::ShoutIceborn,
        Icon::ShoutJonesShadow,
        Icon::ShoutKingsbane,
        Icon::ShoutLifestream,
        Icon::ShoutLightningShield,
        Icon::ShoutOblivion,
        Icon::ShoutPhantomDecoy,
        Icon::ShoutRiftwalk,
        Icon::ShoutShattersphere,
        Icon::ShoutShorsWrath,
        Icon::ShoutShroudOfSnowfall,
        Icon::ShoutSpeakUntoTheStars,
        Icon::ShoutSplinterTwins,
        Icon::ShoutStormblast,
        Icon::ShoutTheConqueror,
        Icon::ShoutTrueshot,
        Icon::ShoutWailOfTheBanshee,
        Icon::ShoutWanderlust,
        Icon::ShoutWarcry,
        Icon::SpellArclight,
        Icon::SpellBleed,
        Icon::SpellCircle,
        Icon::SpellConstellation,
        Icon::SpellControl,
        Icon::SpellCure,
        Icon::SpellDetect,
        Icon::SpellEagleEye,
        Icon::SpellEarth,
        Icon::SpellEvade,
        Icon::SpellFear,
        Icon::SpellFeather,
        Icon::SpellFire,
        Icon::SpellFrost,
        Icon::SpellHeal,
        Icon::SpellHoly,
        Icon::SpellLeaf,
        Icon::SpellLeaves,
        Icon::SpellLight,
        Icon::SpellLightningBlast,
        Icon::SpellMoon,
        Icon::SpellDesecration,
        Icon::SpellParalyze,
        Icon::SpellPoison,
        Icon::SpellReanimate,
        Icon::SpellReflect,
        Icon::SpellRoot,
        Icon::SpellRune,
        Icon::SpellShadow,
        Icon::SpellSharpen,
        Icon::SpellShock,
        Icon::SpellSilence,
        Icon::SpellSlow,
        Icon::SpellSoultrap,
        Icon::SpellSprint,
        Icon::SpellStamina,
        Icon::SpellStars,
        Icon::SpellSummon,
        Icon::SpellSun,
        Icon::SpellTeleport,
        Icon::SpellTime,
        Icon::SpellVampire,
        Icon::SpellWard,
        Icon::SpellWater,
        Icon::SpellWind,
        Icon::SpellWisp,
        Icon::ToolFishingRod,
        Icon::ToolPickaxe,
        Icon::ToolShovel,
        Icon::ToolSickle,
        Icon::MiscTorch,
        Icon::WeaponAxeOneHanded,
        Icon::WeaponAxeTwoHanded,
        Icon::WeaponBow,
        Icon::WeaponClaw,
        Icon::WeaponCrossbow,
        Icon::WeaponDagger,
        Icon::WeaponFlail,
        Icon::WeaponGrenade,
        Icon::WeaponGun,
        Icon::WeaponHalberd,
        Icon::WeaponHammer,
        Icon::WeaponKatana,
        Icon::WeaponLance,
        Icon::WeaponMace,
        Icon::WeaponPike,
        Icon::WeaponQuarterstaff,
        Icon::WeaponRapier,
        Icon::WeaponScythe,
        Icon::WeaponStaff,
        Icon::WeaponSwordOneHanded,
        Icon::WeaponSwordTwoHanded,
        Icon::WeaponWhip,
        Icon::WeaponWoodAxe,
    ];
    let bad_fallback: Vec<&Icon> = icons.iter().filter(|icon| !is_in_core_set(&icon.fallback())).collect();
    assert!(bad_fallback.is_empty());
}
