use soulsy::data::ammo::AmmoType;
use soulsy::data::armor::ArmorType;
use soulsy::data::base::{color_from_keywords, BaseType, LightType};
use soulsy::data::color::InvColor;
use soulsy::data::food::FoodType;
use soulsy::data::keywords::{keyword_for_name, strings_to_keywords, SpellKeywords};
use soulsy::data::potion::PotionType;
use soulsy::data::power::PowerType;
use soulsy::data::shout::{ShoutType, ShoutVariant};
use soulsy::data::weapon::{WeaponEquipType, WeaponType};
use soulsy::data::{HasIcon, HasKeywords, IsHudItem};
use soulsy::images::icons::Icon;
use soulsy::plugin::{Color, ItemCategory};

#[test]
fn ammo_keywords_convert() {
    let input = vec![
        "OCF_InvColorFire".to_string(),
        "OCF_AmmoTypeBullet1H".to_string(),
        "OCF_AmmoTypeBullet".to_string(),
        "OCF_AmmoTypeBullet1H_Basic".to_string(),
    ];

    let result = AmmoType::classify("TestAmmo", input, false);
    assert_eq!(result, AmmoType::Bullet(InvColor::Fire));
}

#[test]
fn can_extract_color() {
    let input = vec![
        "OCF_InvColorFire".to_string(),
        "OCF_AccessoryBelt".to_string(),
        "Armor".to_string(),
    ];
    assert_eq!(color_from_keywords(&input), InvColor::Fire);

    let input = vec![
        "Ammo".to_string(),
        "OCF_AmmoTypeBullet1H".to_string(),
        "OCF_AmmoTypeBullet".to_string(),
        "OCF_InvColorWater".to_string(),
        "OCF_AmmoTypeBullet1H_Basic".to_string(),
    ];
    let color_keywords: Vec<InvColor> = input
        .iter()
        .filter_map(|xs| InvColor::try_from(xs.as_str()).ok())
        .collect();
    assert_eq!(1, color_keywords.len());
    assert_eq!(color_from_keywords(&input), InvColor::Water);
}

#[test]
fn base_keywords_convert() {
    let input = vec![
        "Ammo".to_string(),
        "OCF_AmmoTypeBullet1H".to_string(),
        "OCF_AmmoTypeBullet".to_string(),
        "OCF_InvColorWater".to_string(),
        "OCF_AmmoTypeBullet1H_Basic".to_string(),
    ];

    let result = BaseType::classify("TestName", ItemCategory::Ammo, input, true);
    assert_eq!(result, BaseType::Ammo(AmmoType::Bullet(InvColor::Water)));

    let input = vec![
        "OCF_InvColorFire".to_string(),
        "OCF_AccessoryBelt".to_string(),
        "Armor".to_string(),
    ];
    let result = BaseType::classify("TestName", ItemCategory::Armor, input, false);
    let at = ArmorType::new(Icon::ArmorBelt, InvColor::Fire);
    assert_eq!(result, BaseType::Armor(at));

    let input = vec![
        "OCF_InvColorFire".to_string(),
        "OCF_WeapTypeLongsword2H".to_string(),
        "Weapon".to_string(),
        "*Longsword".to_string(),
    ];
    let result = BaseType::classify("TestName", ItemCategory::Weapon, input, true);
    let wt = WeaponType::new(
        Icon::WeaponSwordTwoHanded,
        InvColor::Fire,
        WeaponEquipType::TwoHanded,
    );
    assert_eq!(result, BaseType::Weapon(wt));
}

#[test]
fn utility_items() {
    let shield = ArmorType::new(Icon::ArmorShieldHeavy, InvColor::Ash);
    let item = BaseType::Armor(shield);
    assert!(!item.is_utility());

    let armor = ArmorType::new(Icon::ArmorHeavyHead, InvColor::Ash);
    let item = BaseType::Armor(armor);
    assert!(item.is_utility());

    assert!(!BaseType::Light(LightType::Lantern).is_utility());

    let potion = BaseType::Potion(PotionType::Health);
    assert!(potion.is_utility());

    let food = BaseType::Food(FoodType::default());
    assert!(food.is_utility());
}

#[test]
fn left_hand_items() {
    assert!(BaseType::Light(LightType::Lantern).left_hand_ok());
    let shield = BaseType::Armor(ArmorType::new(Icon::ArmorShieldHeavy, InvColor::Ash));
    assert!(shield.left_hand_ok());
    let dagger = BaseType::Weapon(WeaponType::new(
        Icon::WeaponDagger,
        InvColor::Blue,
        WeaponEquipType::EitherHand,
    ));
    assert!(dagger.left_hand_ok());
    let dagger = BaseType::Weapon(WeaponType::new(
        Icon::WeaponDagger,
        InvColor::Blue,
        WeaponEquipType::LeftHand,
    ));
    assert!(dagger.left_hand_ok());

    let sword = BaseType::Weapon(WeaponType::new(
        Icon::WeaponSwordTwoHanded,
        InvColor::Blue,
        WeaponEquipType::TwoHanded,
    ));
    assert!(!sword.left_hand_ok());

    let sword = BaseType::Weapon(WeaponType::new(
        Icon::WeaponSwordTwoHanded,
        InvColor::Blue,
        WeaponEquipType::RightHand,
    ));
    assert!(!sword.left_hand_ok());
}

#[test]
fn right_hand_items() {
    assert!(!BaseType::Light(LightType::Lantern).right_hand_ok());

    let shield = BaseType::Armor(ArmorType::new(Icon::ArmorShieldHeavy, InvColor::Ash));
    assert!(!shield.right_hand_ok());

    let dagger = BaseType::Weapon(WeaponType::new(
        Icon::WeaponDagger,
        InvColor::Blue,
        WeaponEquipType::EitherHand,
    ));
    assert!(dagger.right_hand_ok());

    let dagger = BaseType::Weapon(WeaponType::new(
        Icon::WeaponDagger,
        InvColor::Blue,
        WeaponEquipType::LeftHand,
    ));
    assert!(!dagger.right_hand_ok());

    let sword = BaseType::Weapon(WeaponType::new(
        Icon::WeaponSwordTwoHanded,
        InvColor::Blue,
        WeaponEquipType::TwoHanded,
    ));
    assert!(sword.right_hand_ok());

    let sword = BaseType::Weapon(WeaponType::new(
        Icon::WeaponSwordTwoHanded,
        InvColor::Blue,
        WeaponEquipType::RightHand,
    ));
    assert!(sword.right_hand_ok());
}

#[test]
fn can_classify_from_keywords() {
    let color = InvColor::try_from("OCF_InvColorAedric").expect("aedric is a valid color");
    assert_eq!(color, InvColor::Aedric);
    let color = InvColor::try_from("OCF_InvColorWater").expect("aedric is a valid color");
    assert_eq!(color, InvColor::Water);
    let color = InvColor::try_from("OCF_InvColorShock").expect("aedric is a valid color");
    assert_eq!(color, InvColor::Shock);
    let color = InvColor::try_from("OCF_InvColorSun").expect("aedric is a valid color");
    assert_eq!(color, InvColor::Sun);
    let color = InvColor::try_from("OCF_InvColorDaedric").expect("aedric is a valid color");
    assert_eq!(color, InvColor::Daedric);
}

#[test]
fn all_keywords_used() {
    let shoutwords: Vec<SpellKeywords> = vec![
        SpellKeywords::Shout_AnimalAllegiance,
        SpellKeywords::Shout_AuraWhisper,
        SpellKeywords::Shout_BattleFury,
        SpellKeywords::Shout_BecomeEthereal,
        SpellKeywords::Shout_BendWill,
        SpellKeywords::Shout_CallDragon,
        SpellKeywords::Shout_CallOfValor,
        SpellKeywords::Shout_ClearSkies,
        SpellKeywords::Shout_Disarm,
        SpellKeywords::Shout_Dismay,
        SpellKeywords::Shout_DragonAspect,
        SpellKeywords::Shout_Dragonrend,
        SpellKeywords::Shout_DrainVitality,
        SpellKeywords::Shout_ElementalFury,
        SpellKeywords::Shout_FireBreath,
        SpellKeywords::Shout_FrostBreath,
        SpellKeywords::Shout_IceForm,
        SpellKeywords::Shout_KynesPeace,
        SpellKeywords::Shout_MarkedForDeath,
        SpellKeywords::Shout_Slowtime,
        SpellKeywords::Shout_SoulTear,
        SpellKeywords::Shout_Stormcall,
        SpellKeywords::Shout_SummonDurnehviir,
        SpellKeywords::Shout_ThrowVoice,
        SpellKeywords::Shout_UnrelentingForce,
        SpellKeywords::Shout_WhirlwindSprint,
        // Dawnguard unused spell
        SpellKeywords::Shout_SoulCairnSummon,
        // ForcefulTongue
        SpellKeywords::Shout_PhantomForm,
        // Stormcrown
        SpellKeywords::Shout_LightningBreath,
        SpellKeywords::Shout_PoisonBreath,
        // Thunderchild
        SpellKeywords::Shout_AlessiasLove,
        SpellKeywords::Shout_Annihilate,
        SpellKeywords::Shout_ArcaneHelix,
        SpellKeywords::Shout_Armageddon,
        SpellKeywords::Shout_Curse,
        SpellKeywords::Shout_DanceOfTheDead,
        SpellKeywords::Shout_Earthquake,
        SpellKeywords::Shout_EssenceRip,
        SpellKeywords::Shout_Evocation,
        SpellKeywords::Shout_Geomagnetism,
        SpellKeywords::Shout_Iceborn,
        SpellKeywords::Shout_JonesShadow,
        SpellKeywords::Shout_Kingsbane,
        SpellKeywords::Shout_Lifestream,
        SpellKeywords::Shout_LightningShield,
        SpellKeywords::Shout_Oblivion,
        SpellKeywords::Shout_PhantomDecoy,
        SpellKeywords::Shout_Riftwalk,
        SpellKeywords::Shout_Shattersphere,
        SpellKeywords::Shout_ShorsWrath,
        SpellKeywords::Shout_ShroudOfSnowfall,
        SpellKeywords::Shout_SpeakUntoTheStars,
        SpellKeywords::Shout_SplinterTwins,
        SpellKeywords::Shout_Stormblast,
        SpellKeywords::Shout_TheConqueror,
        SpellKeywords::Shout_Trueshot,
        SpellKeywords::Shout_WailOfTheBanshee,
        SpellKeywords::Shout_Wanderlust,
        SpellKeywords::Shout_Warcry,
    ];

    let unused: Vec<&SpellKeywords> = shoutwords
        .iter()
        .filter(|xs| {
            let shout = ShoutType::new(vec![xs.to_string()]);
            if matches!(shout.variant, ShoutVariant::Unclassified) {
                println!("{} turned into unclassified shout", xs.to_string());
                true
            } else {
                false
            }
        })
        .collect();
    assert!(unused.is_empty());
}

#[test]
fn weapon_keywords_convert() {
    let input = vec![
        "OCF_InvColorBlood".to_string(),
        "OCF_WeapTypeHalberd2H".to_string(),
    ];

    let result = WeaponType::classify("TestName", input, true);
    assert_eq!(result.equiptype, WeaponEquipType::TwoHanded);
    assert_eq!(result.color, InvColor::Blood);
    assert_eq!(result.icon, Icon::WeaponHalberd);

    let input = vec![
        "OCF_InvColorBlood".to_string(),
        "Weapon".to_string(),
        "OCF_WeapTypePole2H_Swing".to_string(),
        "OCF_WeapTypeGlaive2H".to_string(),
        "OCF_WeapTypeWarscythe2H".to_string(),
        "OCF_WeapTypeHalberd2H".to_string(),
    ];
    let result = WeaponType::classify("TestName", input, true);
    assert_eq!(result.equiptype, WeaponEquipType::TwoHanded);
    assert_eq!(result.color, InvColor::Blood);
    assert_eq!(result.icon, Icon::WeaponHalberd);

    let input = vec![
        "DaedricArtifact".to_string(),
        "Weapon".to_string(),
        "OCF_ArtifactDaedric".to_string(),
    ];
    let result = WeaponType::classify("TestName", input, false);
    assert_eq!(result.equiptype, WeaponEquipType::EitherHand);
    assert_eq!(result.color, InvColor::White);
    assert_eq!(result.icon, Icon::WeaponSwordOneHanded);

    let input = vec![
        "OCF_WeapTypeLongsword2H".to_string(),
        "OCF_InvColorFire".to_string(),
        "Weapon".to_string(),
        "TwoHandSword".to_string(),
    ];
    let result = WeaponType::classify("TestName", input, true);
    assert_eq!(result.equiptype, WeaponEquipType::TwoHanded);
    assert_eq!(result.color, InvColor::Fire);
    assert_eq!(result.icon, Icon::WeaponSwordTwoHanded);
}

#[test]
fn spell_keywords_read_case_and_prefix_blind() {
    assert_eq!(
        SpellKeywords::try_from("Soulsy_Shout_FireBreath"),
        Ok(SpellKeywords::Shout_FireBreath)
    );
    assert_eq!(
        SpellKeywords::try_from("OCF_MgefSpellDamage_Fire"),
        Ok(SpellKeywords::SpellDamage_Fire)
    );
    assert!(SpellKeywords::try_from("NotAKeyword").is_err());
    assert_eq!(SpellKeywords::MagicCloak.to_string(), "magiccloak".to_string());
    assert_eq!(keyword_for_name("magiccloak"), Some(SpellKeywords::MagicCloak));
    assert_eq!(keyword_for_name("MagicCloak"), None);
    let tags = vec![
        "Shout_Dismay".to_string(),
        "nothing".to_string(),
        "CLASSFIRE".to_string(),
    ];
    assert_eq!(
        strings_to_keywords(&tags),
        vec![SpellKeywords::Shout_Dismay, SpellKeywords::ClassFire]
    );
}

#[test]
fn shouts_get_variants_colors_and_translations() {
    let shout = ShoutType::new(vec!["Shout_UnrelentingForce".to_string()]);
    assert_eq!(*shout.variant(), ShoutVariant::UnrelentingForce);
    assert_eq!(shout.translation(), "Fus-ro-dah!");
    assert_eq!(*shout.icon(), Icon::ShoutUnrelentingForce);
    let fire = ShoutType::new(vec!["Shout_FireBreath".to_string()]);
    assert_eq!(fire.color, InvColor::Fire);
    let unknown = ShoutType::new(vec!["Weapon".to_string()]);
    assert_eq!(unknown, ShoutType::construct(Icon::Shout, InvColor::White, ShoutVariant::Unclassified));
    assert_eq!(unknown, ShoutType::default());
    assert_eq!(unknown.translation(), "This shout is new to me!");
}

#[test]
fn food_icons_come_from_food_then_containers() {
    let tea = FoodType::classify("Tea", vec!["OCF_AlchDrink_Tea".to_string()], false);
    assert_eq!(tea.icon, Icon::DrinkTea);
    let cup = FoodType::classify("Cup", vec!["OCF_VesselCup".to_string()], false);
    assert_eq!(cup.icon, Icon::DrinkTea);
    let both = FoodType::classify(
        "Pie",
        vec!["OCF_VesselBowl".to_string(), "OCF_AlchFood_Baked".to_string()],
        false,
    );
    assert_eq!(both.icon, Icon::FoodPie);
    let plain = FoodType::classify("Plain", vec!["OCF_InvColorGreen".to_string()], false);
    assert_eq!(plain.icon, Icon::Food);
    assert_eq!(plain.color, InvColor::Green);
}

#[test]
fn powers_use_their_color_keyword() {
    let power = PowerType::new("Power", vec!["OCF_InvColorFrost".to_string()]);
    assert_eq!(*power.icon(), Icon::Power);
    assert_eq!(power.color(), Color { r: 0, g: 237, b: 255, a: 255 });
    let plain = PowerType::new("Power", Vec::new());
    assert_eq!(plain.color(), Color::default());
}

#[test]
fn base_types_draw_and_fall_back() {
    let shout = BaseType::classify(
        "Shout",
        ItemCategory::Shout,
        vec!["Shout_Slowtime".to_string()],
        false,
    );
    assert_eq!(*shout.icon(), Icon::ShoutSlowtime);
    assert!(shout.is_power());
    assert_eq!(shout.icon_fallback(), Icon::Shout);
    assert_eq!(
        BaseType::classify("Torch", ItemCategory::Torch, Vec::new(), false),
        BaseType::Light(LightType::Torch)
    );
    assert_eq!(BaseType::Ammo(AmmoType::Arrow(InvColor::Red)).icon_fallback(), Icon::AmmoArrow);
    assert_eq!(BaseType::Empty.color(), Color::default());
    assert!(BaseType::Weapon(WeaponType::default()).count_matters());
    assert!(!BaseType::Power.count_matters());
    let staff = BaseType::Weapon(WeaponType::new(
        Icon::WeaponStaff,
        InvColor::Blue,
        WeaponEquipType::TwoHanded,
    ));
    assert!(staff.two_handed());
    assert!(!staff.is_one_handed());
}

#[test]
fn mixed_case_color_keywords_are_read() {
    assert_eq!(InvColor::try_from("OCF_InvColorFIRE"), Ok(InvColor::Fire));
    assert_eq!(InvColor::try_from("OCF_IconColorWater"), Ok(InvColor::Water));
    assert!(InvColor::try_from("OCF_InvColorPlaid").is_err());
}
