//! The kind of an item stored in a cycle, used to pick its icon and the
//! cycle slots it may go into.

use vstd::prelude::*;

verus! {

/// The type of an item stored in a cycle.
///
/// This lets us determine the icon as well as which cycle slot an item can
/// be added to.
#[derive(Clone, Copy, Debug, PartialEq, Eq, Hash, Structural)]
pub enum ItemKind {
    Empty,
    Alteration,
    ArmorClothing,
    ArmorHeavy,
    ArmorLight,
    Arrow,
    AxeOneHanded,
    AxeTwoHanded,
    Bow,
    Claw,
    Conjuration,
    Crossbow,
    Dagger,
    DestructionFire,
    DestructionFrost,
    DestructionShock,
    Destruction,
    Food,
    Halberd,
    HandToHand,
    IconDefault,
    Illusion,
    Katana,
    Lantern,
    Mace,
    Mask,
    Pike,
    PoisonDefault,
    PotionDefault,
    PotionFireResist,
    PotionFrostResist,
    PotionHealth,
    PotionMagicka,
    PotionMagicResist,
    PotionShockResist,
    PotionStamina,
    Power,
    QuarterStaff,
    Rapier,
    Restoration,
    Scroll,
    Shield,
    Shout,
    SpellDefault,
    Staff,
    SwordOneHanded,
    SwordTwoHanded,
    Torch,
    WeaponDefault,
    Whip,
    NotFound,
    ArmorClothingHead,
    ArmorClothingHands,
    ArmorClothingFeet,
    ArmorLightHead,
    ArmorLightHands,
    ArmorLightFeet,
    ArmorHeavyHead,
    ArmorHeavyHands,
    ArmorHeavyFeet,
    ArmorCloak,
    ArmorBackpack,
    ArmorBelt,
    ArmorRing,
    ArmorAmulet,
    AlterationDetect,
    AlterationFeather,
    AlterationLight,
    AlterationWind,
    ConjurationBoundWeapon,
    ConjurationSkeleton,
    ConjurationSoulTrap,
    ConjurationWolf,
    ConjurationZombie,
    DestructionFireApprentice,
    DestructionFireAdept,
    DestructionFireExpert,
    DestructionFireMaster,
    DestructionFrostApprentice,
    DestructionFrostAdept,
    DestructionFrostExpert,
    DestructionFrostMaster,
    DestructionShockApprentice,
    DestructionShockAdept,
    DestructionShockExpert,
    DestructionShockMaster,
    Flail,
    Gun,
    IllusionClairvoyance,
    IllusionDemoralize,
    IllusionMuffle,
    IllusionNightEye,
    RestorationCure,
    RestorationHeal,
    RestorationPoison,
    RestorationSunDamage,
    RestorationWard,
    SpellParalyze,
    SpellReflect,
}

/// Given an entry kind, return the filename of the icon to use for it.
pub fn get_icon_file(kind: &ItemKind) -> (r: String)
    ensures
        r@ == kind.spec_icon_file(),
{
    kind.icon_file()
}

/// The icon file of the more generic kind this kind falls back to.
pub fn get_icon_fallback(kind: &ItemKind) -> (r: String)
    ensures
        r@ == kind.spec_fallback_kind().spec_icon_file(),
{
    kind.fallback_kind().icon_file()
}

/// Whether items of this kind show a count.
pub fn kind_has_count(kind: ItemKind) -> (r: bool)
    ensures
        r == kind.spec_count_matters(),
{
    kind.has_count()
}

/// Whether items of this kind are spells or scrolls.
pub fn kind_is_magic(kind: ItemKind) -> (r: bool)
    ensures
        r == kind.spec_is_magic(),
{
    kind.is_magic()
}

impl Default for ItemKind {
    fn default() -> (r: Self)
        ensures
            r == ItemKind::Empty,
    {
        ItemKind::Empty
    }
}

impl ItemKind {
    /// The icon file name for each kind; kinds without an icon of their own get `default_icon.svg`.
    pub open spec fn spec_icon_file(self) -> Seq<char> {
        match self {
            ItemKind::Alteration => "alteration.svg"@,
            ItemKind::ArmorClothing => "armor_clothing.svg"@,
            ItemKind::ArmorHeavy => "armor_heavy.svg"@,
            ItemKind::ArmorLight => "armor_light.svg"@,
            ItemKind::Arrow => "arrow.svg"@,
            ItemKind::AxeOneHanded => "weapon_axe_one_handed.svg"@,
            ItemKind::AxeTwoHanded => "weapon_axe_two_handed.svg"@,
            ItemKind::Bow => "weapon_bow.svg"@,
            ItemKind::Claw => "weapon_claw.svg"@,
            ItemKind::Conjuration => "conjuration.svg"@,
            ItemKind::Crossbow => "weapon_crossbow.svg"@,
            ItemKind::Dagger => "weapon_dagger.svg"@,
            ItemKind::DestructionFire => "spell_fire.svg"@,
            ItemKind::DestructionFrost => "spell_frost.svg"@,
            ItemKind::DestructionShock => "spell_shock.svg"@,
            ItemKind::Destruction => "destruction.svg"@,
            ItemKind::Food => "food.svg"@,
            ItemKind::Halberd => "weapon_halberd.svg"@,
            ItemKind::HandToHand => "hand_to_hand.svg"@,
            ItemKind::IconDefault => "icon_default.svg"@,
            ItemKind::Illusion => "illusion.svg"@,
            ItemKind::Katana => "weapon_katana.svg"@,
            ItemKind::Lantern => "lantern.svg"@,
            ItemKind::Mace => "weapon_mace.svg"@,
            ItemKind::Mask => "mask.svg"@,
            ItemKind::Pike => "weapon_pike.svg"@,
            ItemKind::PoisonDefault => "poison_default.svg"@,
            ItemKind::PotionDefault => "potion_default.svg"@,
            ItemKind::PotionFireResist => "potion_resist_fire.svg"@,
            ItemKind::PotionFrostResist => "potion_resist_frost.svg"@,
            ItemKind::PotionHealth => "potion_health.svg"@,
            ItemKind::PotionMagicka => "potion_magicka.svg"@,
            ItemKind::PotionMagicResist => "potion_resist_magic.svg"@,
            ItemKind::PotionShockResist => "potion_resist_shock.svg"@,
            ItemKind::PotionStamina => "potion_stamina.svg"@,
            ItemKind::Power => "power.svg"@,
            ItemKind::QuarterStaff => "weapon_quarterstaff.svg"@,
            ItemKind::Rapier => "weapon_rapier.svg"@,
            ItemKind::Restoration => "restoration.svg"@,
            ItemKind::Scroll => "scroll.svg"@,
            ItemKind::Shield => "armor_shield.svg"@,
            ItemKind::Shout => "shout.svg"@,
            ItemKind::SpellDefault => "spell_default.svg"@,
            ItemKind::Staff => "weapon_staff.svg"@,
            ItemKind::SwordOneHanded => "weapon_sword_one_handed.svg"@,
            ItemKind::SwordTwoHanded => "weapon_sword_two_handed.svg"@,
            ItemKind::Torch => "torch.svg"@,
            ItemKind::WeaponDefault => "weapon_sword_one_handed.svg"@,
            ItemKind::Whip => "weapon_whip.svg"@,
            ItemKind::ArmorClothingHead => "armor_clothing_head.svg"@,
            ItemKind::ArmorClothingHands => "armor_clothing_hands.svg"@,
            ItemKind::ArmorClothingFeet => "armor_clothing_feet.svg"@,
            ItemKind::ArmorLightHead => "armor_light_head.svg"@,
            ItemKind::ArmorLightHands => "armor_light_hands.svg"@,
            ItemKind::ArmorLightFeet => "armor_light_feed.svg"@,
            ItemKind::ArmorHeavyHead => "armor_heavy_head.svg"@,
            ItemKind::ArmorHeavyHands => "armor_heavy_hands.svg"@,
            ItemKind::ArmorHeavyFeet => "armor_heavy_feet.svg"@,
            ItemKind::ArmorCloak => "armor_cloak.svg"@,
            ItemKind::ArmorBackpack => "armor_backpack.svg"@,
            ItemKind::ArmorRing => "armor_ring.svg"@,
            ItemKind::ArmorAmulet => "armor_amulet.svg"@,
            ItemKind::AlterationDetect => "alteration_detect.svg"@,
            ItemKind::AlterationFeather => "alteration_feather.svg"@,
            ItemKind::AlterationLight => "alteration_light.svg"@,
            ItemKind::AlterationWind => "alteration_wind.svg"@,
            ItemKind::ConjurationBoundWeapon => "conjuration_bound_weapon.svg"@,
            ItemKind::ConjurationSoulTrap => "conjuration_soultrap.svg"@,
            ItemKind::ConjurationZombie => "conjuration_zombie.svg"@,
            ItemKind::DestructionFireApprentice => "destruction_fire_apprentice.svg"@,
            ItemKind::DestructionFireAdept => "destruction_fire_adept.svg"@,
            ItemKind::DestructionFireExpert => "destruction_fire_expert.svg"@,
            ItemKind::DestructionFireMaster => "destruction_fire_master.svg"@,
            ItemKind::DestructionFrostApprentice => "destruction_frost_apprentice.svg"@,
            ItemKind::DestructionFrostAdept => "destruction_fire_adept.svg"@,
            ItemKind::DestructionFrostExpert => "destruction_fire_expert.svg"@,
            ItemKind::DestructionFrostMaster => "destruction_fire_master.svg"@,
            ItemKind::DestructionShockApprentice => "destruction_frost_apprentice.svg"@,
            ItemKind::DestructionShockAdept => "destruction_fire_adept.svg"@,
            ItemKind::DestructionShockExpert => "destruction_fire_expert.svg"@,
            ItemKind::DestructionShockMaster => "destruction_fire_master.svg"@,
            ItemKind::Flail => "flail.svg"@,
            ItemKind::Gun => "gun.svg"@,
            ItemKind::IllusionClairvoyance => "illusion_clairvoyance.svg"@,
            ItemKind::IllusionDemoralize => "illusion_demoralize.svg"@,
            ItemKind::IllusionMuffle => "illusion_muffle.svg"@,
            ItemKind::IllusionNightEye => "illusion_nighteye.svg"@,
            ItemKind::RestorationCure => "restoration_cure.svg"@,
            ItemKind::RestorationHeal => "restoration_heal.svg"@,
            ItemKind::RestorationPoison => "restoration_poison.svg"@,
            ItemKind::RestorationSunDamage => "restoration_sundamage.svg"@,
            ItemKind::RestorationWard => "restoration_ward.svg"@,
            ItemKind::SpellParalyze => "spell_paralyze.svg"@,
            ItemKind::SpellReflect => "spell_reflect.svg"@,
            _ => "default_icon.svg"@,
        }
    }

    /// Get the filename of the icon to use for this entry kind.
    pub fn icon_file(&self) -> (r: String)
        ensures
            r@ == self.spec_icon_file(),
    {
        match self {
            ItemKind::Alteration => String::from_str("alteration.svg"),
            ItemKind::ArmorClothing => String::from_str("armor_clothing.svg"),
            ItemKind::ArmorHeavy => String::from_str("armor_heavy.svg"),
            ItemKind::ArmorLight => String::from_str("armor_light.svg"),
            ItemKind::Arrow => String::from_str("arrow.svg"),
            ItemKind::AxeOneHanded => String::from_str("weapon_axe_one_handed.svg"),
            ItemKind::AxeTwoHanded => String::from_str("weapon_axe_two_handed.svg"),
            ItemKind::Bow => String::from_str("weapon_bow.svg"),
            ItemKind::Claw => String::from_str("weapon_claw.svg"),
            ItemKind::Conjuration => String::from_str("conjuration.svg"),
            ItemKind::Crossbow => String::from_str("weapon_crossbow.svg"),
            ItemKind::Dagger => String::from_str("weapon_dagger.svg"),
            ItemKind::DestructionFire => String::from_str("spell_fire.svg"),
            ItemKind::DestructionFrost => String::from_str("spell_frost.svg"),
            ItemKind::DestructionShock => String::from_str("spell_shock.svg"),
            ItemKind::Destruction => String::from_str("destruction.svg"),
            ItemKind::Food => String::from_str("food.svg"),
            ItemKind::Halberd => String::from_str("weapon_halberd.svg"),
            ItemKind::HandToHand => String::from_str("hand_to_hand.svg"),
            ItemKind::IconDefault => String::from_str("icon_default.svg"),
            ItemKind::Illusion => String::from_str("illusion.svg"),
            ItemKind::Katana => String::from_str("weapon_katana.svg"),
            ItemKind::Lantern => String::from_str("lantern.svg"),
            ItemKind::Mace => String::from_str("weapon_mace.svg"),
            ItemKind::Mask => String::from_str("mask.svg"),
            ItemKind::Pike => String::from_str("weapon_pike.svg"),
            ItemKind::PoisonDefault => String::from_str("poison_default.svg"),
            ItemKind::PotionDefault => String::from_str("potion_default.svg"),
            ItemKind::PotionFireResist => String::from_str("potion_resist_fire.svg"),
            ItemKind::PotionFrostResist => String::from_str("potion_resist_frost.svg"),
            ItemKind::PotionHealth => String::from_str("potion_health.svg"),
            ItemKind::PotionMagicka => String::from_str("potion_magicka.svg"),
            ItemKind::PotionMagicResist => String::from_str("potion_resist_magic.svg"),
            ItemKind::PotionShockResist => String::from_str("potion_resist_shock.svg"),
            ItemKind::PotionStamina => String::from_str("potion_stamina.svg"),
            ItemKind::Power => String::from_str("power.svg"),
            ItemKind::QuarterStaff => String::from_str("weapon_quarterstaff.svg"),
            ItemKind::Rapier => String::from_str("weapon_rapier.svg"),
            ItemKind::Restoration => String::from_str("restoration.svg"),
            ItemKind::Scroll => String::from_str("scroll.svg"),
            ItemKind::Shield => String::from_str("armor_shield.svg"),
            ItemKind::Shout => String::from_str("shout.svg"),
            ItemKind::SpellDefault => String::from_str("spell_default.svg"),
            ItemKind::Staff => String::from_str("weapon_staff.svg"),
            ItemKind::SwordOneHanded => String::from_str("weapon_sword_one_handed.svg"),
            ItemKind::SwordTwoHanded => String::from_str("weapon_sword_two_handed.svg"),
            ItemKind::Torch => String::from_str("torch.svg"),
            ItemKind::WeaponDefault => String::from_str("weapon_sword_one_handed.svg"),
            ItemKind::Whip => String::from_str("weapon_whip.svg"),
            ItemKind::ArmorClothingHead => String::from_str("armor_clothing_head.svg"),
            ItemKind::ArmorClothingHands => String::from_str("armor_clothing_hands.svg"),
            ItemKind::ArmorClothingFeet => String::from_str("armor_clothing_feet.svg"),
            ItemKind::ArmorLightHead => String::from_str("armor_light_head.svg"),
            ItemKind::ArmorLightHands => String::from_str("armor_light_hands.svg"),
            ItemKind::ArmorLightFeet => String::from_str("armor_light_feed.svg"),
            ItemKind::ArmorHeavyHead => String::from_str("armor_heavy_head.svg"),
            ItemKind::ArmorHeavyHands => String::from_str("armor_heavy_hands.svg"),
            ItemKind::ArmorHeavyFeet => String::from_str("armor_heavy_feet.svg"),
            ItemKind::ArmorCloak => String::from_str("armor_cloak.svg"),
            ItemKind::ArmorBackpack => String::from_str("armor_backpack.svg"),
            ItemKind::ArmorRing => String::from_str("armor_ring.svg"),
            ItemKind::ArmorAmulet => String::from_str("armor_amulet.svg"),
            ItemKind::AlterationDetect => String::from_str("alteration_detect.svg"),
            ItemKind::AlterationFeather => String::from_str("alteration_feather.svg"),
            ItemKind::AlterationLight => String::from_str("alteration_light.svg"),
            ItemKind::AlterationWind => String::from_str("alteration_wind.svg"),
            ItemKind::ConjurationBoundWeapon => String::from_str("conjuration_bound_weapon.svg"),
            ItemKind::ConjurationSoulTrap => String::from_str("conjuration_soultrap.svg"),
            ItemKind::ConjurationZombie => String::from_str("conjuration_zombie.svg"),
            ItemKind::DestructionFireApprentice => String::from_str("destruction_fire_apprentice.svg"),
            ItemKind::DestructionFireAdept => String::from_str("destruction_fire_adept.svg"),
            ItemKind::DestructionFireExpert => String::from_str("destruction_fire_expert.svg"),
            ItemKind::DestructionFireMaster => String::from_str("destruction_fire_master.svg"),
            ItemKind::DestructionFrostApprentice => String::from_str("destruction_frost_apprentice.svg"),
            ItemKind::DestructionFrostAdept => String::from_str("destruction_fire_adept.svg"),
            ItemKind::DestructionFrostExpert => String::from_str("destruction_fire_expert.svg"),
            ItemKind::DestructionFrostMaster => String::from_str("destruction_fire_master.svg"),
            ItemKind::DestructionShockApprentice => String::from_str("destruction_frost_apprentice.svg"),
            ItemKind::DestructionShockAdept => String::from_str("destruction_fire_adept.svg"),
            ItemKind::DestructionShockExpert => String::from_str("destruction_fire_expert.svg"),
            ItemKind::DestructionShockMaster => String::from_str("destruction_fire_master.svg"),
            ItemKind::Flail => String::from_str("flail.svg"),
            ItemKind::Gun => String::from_str("gun.svg"),
            ItemKind::IllusionClairvoyance => String::from_str("illusion_clairvoyance.svg"),
            ItemKind::IllusionDemoralize => String::from_str("illusion_demoralize.svg"),
            ItemKind::IllusionMuffle => String::from_str("illusion_muffle.svg"),
            ItemKind::IllusionNightEye => String::from_str("illusion_nighteye.svg"),
            ItemKind::RestorationCure => String::from_str("restoration_cure.svg"),
            ItemKind::RestorationHeal => String::from_str("restoration_heal.svg"),
            ItemKind::RestorationPoison => String::from_str("restoration_poison.svg"),
            ItemKind::RestorationSunDamage => String::from_str("restoration_sundamage.svg"),
            ItemKind::RestorationWard => String::from_str("restoration_ward.svg"),
            ItemKind::SpellParalyze => String::from_str("spell_paralyze.svg"),
            ItemKind::SpellReflect => String::from_str("spell_reflect.svg"),
            _ => String::from_str("default_icon.svg"),
        }
    }

    /// Is a spell specifically, not a scroll.
    pub open spec fn spec_is_spell(self) -> bool {
        match self {
            ItemKind::Alteration | ItemKind::Conjuration | ItemKind::Destruction | ItemKind::DestructionFire | ItemKind::DestructionFrost | ItemKind::DestructionShock | ItemKind::Illusion | ItemKind::Restoration | ItemKind::SpellDefault | ItemKind::AlterationDetect | ItemKind::AlterationFeather | ItemKind::AlterationLight | ItemKind::AlterationWind | ItemKind::ConjurationSkeleton | ItemKind::ConjurationSoulTrap | ItemKind::ConjurationWolf | ItemKind::ConjurationZombie | ItemKind::DestructionFireApprentice | ItemKind::DestructionFireAdept | ItemKind::DestructionFireExpert | ItemKind::DestructionFireMaster | ItemKind::DestructionFrostApprentice | ItemKind::DestructionFrostAdept | ItemKind::DestructionFrostExpert | ItemKind::DestructionFrostMaster | ItemKind::DestructionShockApprentice | ItemKind::DestructionShockAdept | ItemKind::DestructionShockExpert | ItemKind::DestructionShockMaster | ItemKind::IllusionClairvoyance | ItemKind::IllusionDemoralize | ItemKind::IllusionMuffle | ItemKind::IllusionNightEye | ItemKind::RestorationCure | ItemKind::RestorationHeal | ItemKind::RestorationPoison | ItemKind::RestorationSunDamage | ItemKind::RestorationWard | ItemKind::SpellParalyze | ItemKind::SpellReflect | ItemKind::ConjurationBoundWeapon => true,
            _ => false,
        }
    }

    /// Is a spell specifically, not a scroll.
    pub fn is_spell(&self) -> (r: bool)
        ensures
            r == self.spec_is_spell(),
    {
        match self {
            ItemKind::Alteration | ItemKind::Conjuration | ItemKind::Destruction | ItemKind::DestructionFire | ItemKind::DestructionFrost | ItemKind::DestructionShock | ItemKind::Illusion | ItemKind::Restoration | ItemKind::SpellDefault | ItemKind::AlterationDetect | ItemKind::AlterationFeather | ItemKind::AlterationLight | ItemKind::AlterationWind | ItemKind::ConjurationSkeleton | ItemKind::ConjurationSoulTrap | ItemKind::ConjurationWolf | ItemKind::ConjurationZombie | ItemKind::DestructionFireApprentice | ItemKind::DestructionFireAdept | ItemKind::DestructionFireExpert | ItemKind::DestructionFireMaster | ItemKind::DestructionFrostApprentice | ItemKind::DestructionFrostAdept | ItemKind::DestructionFrostExpert | ItemKind::DestructionFrostMaster | ItemKind::DestructionShockApprentice | ItemKind::DestructionShockAdept | ItemKind::DestructionShockExpert | ItemKind::DestructionShockMaster | ItemKind::IllusionClairvoyance | ItemKind::IllusionDemoralize | ItemKind::IllusionMuffle | ItemKind::IllusionNightEye | ItemKind::RestorationCure | ItemKind::RestorationHeal | ItemKind::RestorationPoison | ItemKind::RestorationSunDamage | ItemKind::RestorationWard | ItemKind::SpellParalyze | ItemKind::SpellReflect | ItemKind::ConjurationBoundWeapon => true,
            _ => false,
        }
    }

    /// Check if this entry is a magic spell or scroll of any type.
    pub open spec fn spec_is_magic(self) -> bool {
        self.spec_is_spell() || self is Scroll
    }

    /// Check if this entry is a magic spell or scroll of any type.
    pub fn is_magic(&self) -> (r: bool)
        ensures
            r == self.spec_is_magic(),
    {
        self.is_spell() || matches!(*self, ItemKind::Scroll)
    }

    /// Check if this entry is a weapon of any kind.
    pub open spec fn spec_is_weapon(self) -> bool {
        match self {
            ItemKind::AxeOneHanded | ItemKind::AxeTwoHanded | ItemKind::Bow | ItemKind::Claw | ItemKind::Crossbow | ItemKind::Dagger | ItemKind::Halberd | ItemKind::HandToHand | ItemKind::Katana | ItemKind::Mace | ItemKind::Pike | ItemKind::QuarterStaff | ItemKind::Rapier | ItemKind::Staff | ItemKind::SwordOneHanded | ItemKind::SwordTwoHanded | ItemKind::Whip => true,
            _ => false,
        }
    }

    /// Check if this entry is a weapon of any kind.
    pub fn is_weapon(&self) -> (r: bool)
        ensures
            r == self.spec_is_weapon(),
    {
        match self {
            ItemKind::AxeOneHanded | ItemKind::AxeTwoHanded | ItemKind::Bow | ItemKind::Claw | ItemKind::Crossbow | ItemKind::Dagger | ItemKind::Halberd | ItemKind::HandToHand | ItemKind::Katana | ItemKind::Mace | ItemKind::Pike | ItemKind::QuarterStaff | ItemKind::Rapier | ItemKind::Staff | ItemKind::SwordOneHanded | ItemKind::SwordTwoHanded | ItemKind::Whip => true,
            _ => false,
        }
    }

    /// Check if this entry is a weapon wielded in one hand.
    pub open spec fn spec_is_one_handed_weapon(self) -> bool {
        match self {
            ItemKind::AxeOneHanded | ItemKind::Claw | ItemKind::Dagger | ItemKind::HandToHand | ItemKind::Katana | ItemKind::Mace | ItemKind::Rapier | ItemKind::SwordOneHanded | ItemKind::Whip => true,
            _ => false,
        }
    }

    /// Check if this entry is a weapon wielded in one hand.
    pub fn is_one_handed_weapon(&self) -> (r: bool)
        ensures
            r == self.spec_is_one_handed_weapon(),
    {
        match self {
            ItemKind::AxeOneHanded | ItemKind::Claw | ItemKind::Dagger | ItemKind::HandToHand | ItemKind::Katana | ItemKind::Mace | ItemKind::Rapier | ItemKind::SwordOneHanded | ItemKind::Whip => true,
            _ => false,
        }
    }

    /// Check if this item is wearable armor.
    pub open spec fn spec_is_armor(self) -> bool {
        match self {
            ItemKind::ArmorClothing | ItemKind::ArmorHeavy | ItemKind::ArmorLight | ItemKind::Lantern | ItemKind::Mask | ItemKind::ArmorClothingHead | ItemKind::ArmorClothingHands | ItemKind::ArmorClothingFeet | ItemKind::ArmorLightHead | ItemKind::ArmorLightHands | ItemKind::ArmorLightFeet | ItemKind::ArmorHeavyHead | ItemKind::ArmorHeavyHands | ItemKind::ArmorHeavyFeet | ItemKind::ArmorCloak | ItemKind::ArmorBackpack | ItemKind::ArmorRing | ItemKind::ArmorAmulet => true,
            _ => false,
        }
    }

    /// Check if this item is wearable armor.
    pub fn is_armor(&self) -> (r: bool)
        ensures
            r == self.spec_is_armor(),
    {
        match self {
            ItemKind::ArmorClothing | ItemKind::ArmorHeavy | ItemKind::ArmorLight | ItemKind::Lantern | ItemKind::Mask | ItemKind::ArmorClothingHead | ItemKind::ArmorClothingHands | ItemKind::ArmorClothingFeet | ItemKind::ArmorLightHead | ItemKind::ArmorLightHands | ItemKind::ArmorLightFeet | ItemKind::ArmorHeavyHead | ItemKind::ArmorHeavyHands | ItemKind::ArmorHeavyFeet | ItemKind::ArmorCloak | ItemKind::ArmorBackpack | ItemKind::ArmorRing | ItemKind::ArmorAmulet => true,
            _ => false,
        }
    }

    /// Check if this item is gluggable.
    pub open spec fn spec_is_potion(self) -> bool {
        match self {
            ItemKind::PotionDefault | ItemKind::PotionFireResist | ItemKind::PotionFrostResist | ItemKind::PotionHealth | ItemKind::PotionMagicka | ItemKind::PotionMagicResist | ItemKind::PotionShockResist | ItemKind::PotionStamina => true,
            _ => false,
        }
    }

    /// Check if this item is gluggable.
    pub fn is_potion(&self) -> (r: bool)
        ensures
            r == self.spec_is_potion(),
    {
        match self {
            ItemKind::PotionDefault | ItemKind::PotionFireResist | ItemKind::PotionFrostResist | ItemKind::PotionHealth | ItemKind::PotionMagicka | ItemKind::PotionMagicResist | ItemKind::PotionShockResist | ItemKind::PotionStamina => true,
            _ => false,
        }
    }

    /// Check if this entry is a shout or power.
    pub open spec fn spec_is_power(self) -> bool {
        self is Shout || self is Power
    }

    /// Check if this entry is a shout or power.
    pub fn is_power(&self) -> (r: bool)
        ensures
            r == self.spec_is_power(),
    {
        matches!(*self, ItemKind::Shout | ItemKind::Power)
    }

    /// Check if this entry is a kind of ammo.
    pub open spec fn spec_is_ammo(self) -> bool {
        self is Arrow
    }

    /// Check if this entry is a kind of ammo.
    pub fn is_ammo(&self) -> (r: bool)
        ensures
            r == self.spec_is_ammo(),
    {
        matches!(*self, ItemKind::Arrow)
    }

    /// Whether a count is shown: weapons, potions, ammo and scrolls, but not bare hands.
    pub open spec fn spec_count_matters(self) -> bool {
        !(self is HandToHand) && (self.spec_is_weapon() || self.spec_is_potion() || self.spec_is_ammo() || self is Scroll)
    }

    /// Whether a count is shown: weapons, potions, ammo and scrolls, but not bare hands.
    pub fn count_matters(&self) -> (r: bool)
        ensures
            r == self.spec_count_matters(),
    {
        !matches!(*self, ItemKind::HandToHand) && (self.is_weapon() || self.is_potion() || self.is_ammo() || matches!(*self, ItemKind::Scroll))
    }

    /// Whether a count is shown for this kind; the same as `count_matters`.
    pub fn has_count(&self) -> (r: bool)
        ensures
            r == self.spec_count_matters(),
    {
        self.count_matters()
    }

    /// Check if this entry can be equipped in the left hand: one-handed weapons, magic, shields and torches.
    pub open spec fn spec_left_hand_ok(self) -> bool {
        self.spec_is_one_handed_weapon() || self.spec_is_magic() || self is Shield || self is Torch
    }

    /// Check if this entry can be equipped in the left hand: one-handed weapons, magic, shields and torches.
    pub fn left_hand_ok(&self) -> (r: bool)
        ensures
            r == self.spec_left_hand_ok(),
    {
        self.is_one_handed_weapon() || self.is_magic() || matches!(*self, ItemKind::Shield | ItemKind::Torch)
    }

    /// Check if this entry can be equipped in the right hand: weapons and magic.
    pub open spec fn spec_right_hand_ok(self) -> bool {
        self.spec_is_weapon() || self.spec_is_magic()
    }

    /// Check if this entry can be equipped in the right hand: weapons and magic.
    pub fn right_hand_ok(&self) -> (r: bool)
        ensures
            r == self.spec_right_hand_ok(),
    {
        self.is_weapon() || self.is_magic()
    }

    /// Check if this entry is a utility item: armor, consumables, ammo, lights and poisons.
    pub open spec fn spec_is_utility(self) -> bool {
        self.spec_is_armor() || match self {
            ItemKind::Arrow | ItemKind::Food | ItemKind::Lantern | ItemKind::Mask | ItemKind::PoisonDefault | ItemKind::PotionDefault | ItemKind::PotionFireResist | ItemKind::PotionFrostResist | ItemKind::PotionHealth | ItemKind::PotionMagicka | ItemKind::PotionMagicResist | ItemKind::PotionShockResist | ItemKind::PotionStamina => true,
            _ => false,
        }
    }

    /// Check if this entry is a utility item: armor, consumables, ammo, lights and poisons.
    pub fn is_utility(&self) -> (r: bool)
        ensures
            r == self.spec_is_utility(),
    {
        self.is_armor() || match self {
            ItemKind::Arrow | ItemKind::Food | ItemKind::Lantern | ItemKind::Mask | ItemKind::PoisonDefault | ItemKind::PotionDefault | ItemKind::PotionFireResist | ItemKind::PotionFrostResist | ItemKind::PotionHealth | ItemKind::PotionMagicka | ItemKind::PotionMagicResist | ItemKind::PotionShockResist | ItemKind::PotionStamina => true,
            _ => false,
        }
    }

    /// The more generic kind whose icon is used when this kind has none in the layout.
    pub open spec fn spec_fallback_kind(self) -> ItemKind {
        match self {
            ItemKind::ArmorClothingHead | ItemKind::ArmorClothingHands | ItemKind::ArmorClothingFeet => ItemKind::ArmorClothing,
            ItemKind::ArmorLightHead | ItemKind::ArmorLightHands | ItemKind::ArmorLightFeet => ItemKind::ArmorLight,
            ItemKind::ArmorHeavyHead | ItemKind::ArmorHeavyHands | ItemKind::ArmorHeavyFeet => ItemKind::ArmorClothing,
            ItemKind::ArmorCloak | ItemKind::ArmorBackpack | ItemKind::ArmorRing | ItemKind::ArmorAmulet => ItemKind::ArmorClothing,
            ItemKind::AlterationDetect | ItemKind::AlterationLight | ItemKind::AlterationWind | ItemKind::AlterationFeather => ItemKind::Alteration,
            ItemKind::ConjurationSoulTrap | ItemKind::ConjurationZombie | ItemKind::ConjurationBoundWeapon => ItemKind::Conjuration,
            ItemKind::DestructionFireApprentice | ItemKind::DestructionFireAdept | ItemKind::DestructionFireExpert | ItemKind::DestructionFireMaster => ItemKind::DestructionFire,
            ItemKind::DestructionFrostApprentice | ItemKind::DestructionFrostAdept | ItemKind::DestructionFrostExpert | ItemKind::DestructionFrostMaster => ItemKind::DestructionFrost,
            ItemKind::DestructionShockApprentice | ItemKind::DestructionShockAdept | ItemKind::DestructionShockExpert | ItemKind::DestructionShockMaster => ItemKind::DestructionShock,
            ItemKind::IllusionClairvoyance | ItemKind::IllusionDemoralize | ItemKind::IllusionMuffle | ItemKind::IllusionNightEye => ItemKind::Illusion,
            ItemKind::RestorationCure | ItemKind::RestorationHeal | ItemKind::RestorationPoison | ItemKind::RestorationSunDamage | ItemKind::RestorationWard => ItemKind::Restoration,
            ItemKind::Flail | ItemKind::Gun => ItemKind::WeaponDefault,
            ItemKind::SpellParalyze | ItemKind::SpellReflect => ItemKind::Alteration,
            _ => ItemKind::IconDefault,
        }
    }

    /// If the layout of the player does not have a specific icon for this kind, we use a more
    /// generic one.
    pub fn fallback_kind(&self) -> (r: &ItemKind)
        ensures
            *r == self.spec_fallback_kind(),
    {
        match self {
            ItemKind::ArmorClothingHead | ItemKind::ArmorClothingHands | ItemKind::ArmorClothingFeet => &ItemKind::ArmorClothing,
            ItemKind::ArmorLightHead | ItemKind::ArmorLightHands | ItemKind::ArmorLightFeet => &ItemKind::ArmorLight,
            ItemKind::ArmorHeavyHead | ItemKind::ArmorHeavyHands | ItemKind::ArmorHeavyFeet => &ItemKind::ArmorClothing,
            ItemKind::ArmorCloak | ItemKind::ArmorBackpack | ItemKind::ArmorRing | ItemKind::ArmorAmulet => &ItemKind::ArmorClothing,
            ItemKind::AlterationDetect | ItemKind::AlterationLight | ItemKind::AlterationWind | ItemKind::AlterationFeather => &ItemKind::Alteration,
            ItemKind::ConjurationSoulTrap | ItemKind::ConjurationZombie | ItemKind::ConjurationBoundWeapon => &ItemKind::Conjuration,
            ItemKind::DestructionFireApprentice | ItemKind::DestructionFireAdept | ItemKind::DestructionFireExpert | ItemKind::DestructionFireMaster => &ItemKind::DestructionFire,
            ItemKind::DestructionFrostApprentice | ItemKind::DestructionFrostAdept | ItemKind::DestructionFrostExpert | ItemKind::DestructionFrostMaster => &ItemKind::DestructionFrost,
            ItemKind::DestructionShockApprentice | ItemKind::DestructionShockAdept | ItemKind::DestructionShockExpert | ItemKind::DestructionShockMaster => &ItemKind::DestructionShock,
            ItemKind::IllusionClairvoyance | ItemKind::IllusionDemoralize | ItemKind::IllusionMuffle | ItemKind::IllusionNightEye => &ItemKind::Illusion,
            ItemKind::RestorationCure | ItemKind::RestorationHeal | ItemKind::RestorationPoison | ItemKind::RestorationSunDamage | ItemKind::RestorationWard => &ItemKind::Restoration,
            ItemKind::Flail | ItemKind::Gun => &ItemKind::WeaponDefault,
            ItemKind::SpellParalyze | ItemKind::SpellReflect => &ItemKind::Alteration,
            _ => &ItemKind::IconDefault,
        }
    }

    /// The kind numbered by a byte in the oldest save format; unknown numbers are `Empty`.
    pub open spec fn spec_from_u8(value: u8) -> ItemKind {
        match value {
            0 => ItemKind::Empty,
            1 => ItemKind::Alteration,
            2 => ItemKind::ArmorClothing,
            3 => ItemKind::ArmorHeavy,
            4 => ItemKind::ArmorLight,
            5 => ItemKind::Arrow,
            6 => ItemKind::AxeOneHanded,
            7 => ItemKind::AxeTwoHanded,
            8 => ItemKind::Bow,
            9 => ItemKind::Claw,
            10 => ItemKind::Conjuration,
            11 => ItemKind::Crossbow,
            12 => ItemKind::Dagger,
            13 => ItemKind::DestructionFire,
            14 => ItemKind::DestructionFrost,
            15 => ItemKind::DestructionShock,
            16 => ItemKind::Destruction,
            17 => ItemKind::Food,
            18 => ItemKind::Halberd,
            19 => ItemKind::HandToHand,
            20 => ItemKind::IconDefault,
            21 => ItemKind::Illusion,
            22 => ItemKind::Katana,
            23 => ItemKind::Lantern,
            24 => ItemKind::Mace,
            25 => ItemKind::Mask,
            26 => ItemKind::Pike,
            27 => ItemKind::PoisonDefault,
            28 => ItemKind::PotionDefault,
            29 => ItemKind::PotionFireResist,
            30 => ItemKind::PotionFrostResist,
            31 => ItemKind::PotionHealth,
            32 => ItemKind::PotionMagicka,
            33 => ItemKind::PotionMagicResist,
            34 => ItemKind::PotionShockResist,
            35 => ItemKind::PotionStamina,
            36 => ItemKind::Power,
            37 => ItemKind::QuarterStaff,
            38 => ItemKind::Rapier,
            39 => ItemKind::Restoration,
            40 => ItemKind::Scroll,
            41 => ItemKind::Shield,
            42 => ItemKind::Shout,
            43 => ItemKind::SpellDefault,
            44 => ItemKind::Staff,
            45 => ItemKind::SwordOneHanded,
            46 => ItemKind::SwordTwoHanded,
            47 => ItemKind::Torch,
            48 => ItemKind::WeaponDefault,
            49 => ItemKind::Whip,
            _ => ItemKind::Empty,
        }
    }
}

impl vstd::std_specs::convert::FromSpecImpl<u8> for ItemKind {
    open spec fn obeys_from_spec() -> bool {
        true
    }

    open spec fn from_spec(v: u8) -> ItemKind {
        ItemKind::spec_from_u8(v)
    }
}

impl From<u8> for ItemKind {
    fn from(value: u8) -> (r: ItemKind) {
        match value {
            0 => ItemKind::Empty,
            1 => ItemKind::Alteration,
            2 => ItemKind::ArmorClothing,
            3 => ItemKind::ArmorHeavy,
            4 => ItemKind::ArmorLight,
            5 => ItemKind::Arrow,
            6 => ItemKind::AxeOneHanded,
            7 => ItemKind::AxeTwoHanded,
            8 => ItemKind::Bow,
            9 => ItemKind::Claw,
            10 => ItemKind::Conjuration,
            11 => ItemKind::Crossbow,
            12 => ItemKind::Dagger,
            13 => ItemKind::DestructionFire,
            14 => ItemKind::DestructionFrost,
            15 => ItemKind::DestructionShock,
            16 => ItemKind::Destruction,
            17 => ItemKind::Food,
            18 => ItemKind::Halberd,
            19 => ItemKind::HandToHand,
            20 => ItemKind::IconDefault,
            21 => ItemKind::Illusion,
            22 => ItemKind::Katana,
            23 => ItemKind::Lantern,
            24 => ItemKind::Mace,
            25 => ItemKind::Mask,
            26 => ItemKind::Pike,
            27 => ItemKind::PoisonDefault,
            28 => ItemKind::PotionDefault,
            29 => ItemKind::PotionFireResist,
            30 => ItemKind::PotionFrostResist,
            31 => ItemKind::PotionHealth,
            32 => ItemKind::PotionMagicka,
            33 => ItemKind::PotionMagicResist,
            34 => ItemKind::PotionShockResist,
            35 => ItemKind::PotionStamina,
            36 => ItemKind::Power,
            37 => ItemKind::QuarterStaff,
            38 => ItemKind::Rapier,
            39 => ItemKind::Restoration,
            40 => ItemKind::Scroll,
            41 => ItemKind::Shield,
            42 => ItemKind::Shout,
            43 => ItemKind::SpellDefault,
            44 => ItemKind::Staff,
            45 => ItemKind::SwordOneHanded,
            46 => ItemKind::SwordTwoHanded,
            47 => ItemKind::Torch,
            48 => ItemKind::WeaponDefault,
            49 => ItemKind::Whip,
            _ => ItemKind::Empty,
        }
    }
}

/// Every one-handed weapon is a weapon.
pub proof fn lemma_one_handed_weapons_are_weapons(kind: ItemKind)
    ensures
        kind.spec_is_one_handed_weapon() ==> kind.spec_is_weapon(),
{
}

/// Shields and torches never go in the right hand.
pub proof fn lemma_right_hand_excludes_shields_and_torches(kind: ItemKind)
    ensures
        kind.spec_right_hand_ok() ==> !(kind is Shield) && !(kind is Torch),
{
}

/// Potions and armor always belong in the utility cycle.
pub proof fn lemma_potions_and_armor_are_utility(kind: ItemKind)
    ensures
        kind.spec_is_potion() ==> kind.spec_is_utility(),
        kind.spec_is_armor() ==> kind.spec_is_utility(),
{
}

/// Falling back twice always lands on the default icon kind.
pub proof fn lemma_fallback_settles(kind: ItemKind)
    ensures
        kind.spec_fallback_kind().spec_fallback_kind() == ItemKind::IconDefault,
{
}

/// The kind a fallback lands on always has an icon file of its own.
pub proof fn lemma_fallback_has_own_icon(kind: ItemKind)
    ensures
        kind.spec_fallback_kind().spec_icon_file() != "default_icon.svg"@,
{
    reveal_strlit("default_icon.svg");
    reveal_strlit("armor_clothing.svg");
    reveal_strlit("armor_light.svg");
    reveal_strlit("alteration.svg");
    reveal_strlit("conjuration.svg");
    reveal_strlit("spell_fire.svg");
    reveal_strlit("spell_frost.svg");
    reveal_strlit("spell_shock.svg");
    reveal_strlit("illusion.svg");
    reveal_strlit("restoration.svg");
    reveal_strlit("weapon_sword_one_handed.svg");
    reveal_strlit("icon_default.svg");
    if kind.spec_fallback_kind() is IconDefault {
        assert("icon_default.svg"@[0] != "default_icon.svg"@[0]);
    } else {
        assert(kind.spec_fallback_kind().spec_icon_file().len() != "default_icon.svg"@.len());
    }
}

/// Bytes past the last known kind number read as an empty kind.
pub proof fn lemma_unknown_numbers_are_empty(value: u8)
    requires
        value >= 50,
    ensures
        ItemKind::spec_from_u8(value) == ItemKind::Empty,
{
}

} // verus!
