//! Classification helpers for the entry kind shared with the game side.

use vstd::prelude::*;

verus! {

/// The kind of an entry, which picks its icon and the cycles it may join.
#[derive(Clone, Copy, Debug, PartialEq, Eq, Hash, Structural)]
pub enum EntryKind {
    Empty,
    Alteration,
    ArmorClothing,
    ArmorHeavy,
    ArmorLight,
    Arrow,
    AxeOneHanded,
    AxeTwoHanded,
    Bow,
    Claw,
    Conjuration,
    Crossbow,
    Dagger,
    DestructionFire,
    DestructionFrost,
    DestructionShock,
    Destruction,
    Food,
    Halberd,
    HandToHand,
    IconDefault,
    Illusion,
    Katana,
    Lantern,
    Mace,
    Mask,
    Pike,
    PoisonDefault,
    PotionDefault,
    PotionFireResist,
    PotionFrostResist,
    PotionHealth,
    PotionMagicka,
    PotionMagicResist,
    PotionShockResist,
    PotionStamina,
    Power,
    QuarterStaff,
    Rapier,
    Restoration,
    Scroll,
    Shield,
    Shout,
    SpellDefault,
    Staff,
    SwordOneHanded,
    SwordTwoHanded,
    Torch,
    WeaponDefault,
    Whip,
}

impl Default for EntryKind {
    fn default() -> (r: Self)
        ensures
            r == EntryKind::Empty,
    {
        EntryKind::Empty
    }
}

impl EntryKind {
    /// The icon file name for each kind; kinds without an icon of their own get `default_icon.svg`.
    pub open spec fn spec_icon_file(self) -> Seq<char> {
        match self {
            EntryKind::Alteration => "alteration.svg"@,
            EntryKind::ArmorClothing => "armor_clothing.svg"@,
            EntryKind::ArmorHeavy => "armor_heavy.svg"@,
            EntryKind::ArmorLight => "armor_light.svg"@,
            EntryKind::Arrow => "arrow.svg"@,
            EntryKind::AxeOneHanded => "axe_one_handed.svg"@,
            EntryKind::AxeTwoHanded => "axe_two_handed.svg"@,
            EntryKind::Bow => "bow.svg"@,
            EntryKind::Claw => "claw.svg"@,
            EntryKind::Conjuration => "conjuration.svg"@,
            EntryKind::Crossbow => "crossbow.svg"@,
            EntryKind::Dagger => "dagger.svg"@,
            EntryKind::DestructionFire => "destruction_fire.svg"@,
            EntryKind::DestructionFrost => "destruction_frost.svg"@,
            EntryKind::DestructionShock => "destruction_shock.svg"@,
            EntryKind::Destruction => "destruction.svg"@,
            EntryKind::Food => "food.svg"@,
            EntryKind::Halberd => "halberd.svg"@,
            EntryKind::HandToHand => "hand_to_hand.svg"@,
            EntryKind::IconDefault => "icon_default.svg"@,
            EntryKind::Illusion => "illusion.svg"@,
            EntryKind::Katana => "katana.svg"@,
            EntryKind::Lantern => "lantern.svg"@,
            EntryKind::Mace => "mace.svg"@,
            EntryKind::Mask => "mask.svg"@,
            EntryKind::Pike => "pike.svg"@,
            EntryKind::PoisonDefault => "poison_default.svg"@,
            EntryKind::PotionDefault => "default_potion.svg"@,
            EntryKind::PotionFireResist => "potion_fire_resist.svg"@,
            EntryKind::PotionFrostResist => "potion_frost_resist.svg"@,
            EntryKind::PotionHealth => "potion_health.svg"@,
            EntryKind::PotionMagicka => "potion_magicka.svg"@,
            EntryKind::PotionMagicResist => "potion_magic_resist.svg"@,
            EntryKind::PotionShockResist => "potion_shock_resist.svg"@,
            EntryKind::PotionStamina => "potion_stamina.svg"@,
            EntryKind::Power => "power.svg"@,
            EntryKind::QuarterStaff => "quarterstaff.svg"@,
            EntryKind::Rapier => "rapier.svg"@,
            EntryKind::Restoration => "restoration.svg"@,
            EntryKind::Scroll => "scroll.svg"@,
            EntryKind::Shield => "shield.svg"@,
            EntryKind::Shout => "shout.svg"@,
            EntryKind::SpellDefault => "spell_default.svg"@,
            EntryKind::Staff => "staff.svg"@,
            EntryKind::SwordOneHanded => "sword_one_handed.svg"@,
            EntryKind::SwordTwoHanded => "sword_two_handed.svg"@,
            EntryKind::Torch => "torch.svg"@,
            EntryKind::WeaponDefault => "sword_one_handed.svg"@,
            EntryKind::Whip => "whip.svg"@,
            _ => "default_icon.svg"@,
        }
    }

    /// Get the filename of the icon to use for this entry kind.
    pub fn icon_file(&self) -> (r: String)
        ensures
            r@ == self.spec_icon_file(),
    {
        match self {
            EntryKind::Alteration => String::from_str("alteration.svg"),
            EntryKind::ArmorClothing => String::from_str("armor_clothing.svg"),
            EntryKind::ArmorHeavy => String::from_str("armor_heavy.svg"),
            EntryKind::ArmorLight => String::from_str("armor_light.svg"),
            EntryKind::Arrow => String::from_str("arrow.svg"),
            EntryKind::AxeOneHanded => String::from_str("axe_one_handed.svg"),
            EntryKind::AxeTwoHanded => String::from_str("axe_two_handed.svg"),
            EntryKind::Bow => String::from_str("bow.svg"),
            EntryKind::Claw => String::from_str("claw.svg"),
            EntryKind::Conjuration => String::from_str("conjuration.svg"),
            EntryKind::Crossbow => String::from_str("crossbow.svg"),
            EntryKind::Dagger => String::from_str("dagger.svg"),
            EntryKind::DestructionFire => String::from_str("destruction_fire.svg"),
            EntryKind::DestructionFrost => String::from_str("destruction_frost.svg"),
            EntryKind::DestructionShock => String::from_str("destruction_shock.svg"),
            EntryKind::Destruction => String::from_str("destruction.svg"),
            EntryKind::Food => String::from_str("food.svg"),
            EntryKind::Halberd => String::from_str("halberd.svg"),
            EntryKind::HandToHand => String::from_str("hand_to_hand.svg"),
            EntryKind::IconDefault => String::from_str("icon_default.svg"),
            EntryKind::Illusion => String::from_str("illusion.svg"),
            EntryKind::Katana => String::from_str("katana.svg"),
            EntryKind::Lantern => String::from_str("lantern.svg"),
            EntryKind::Mace => String::from_str("mace.svg"),
            EntryKind::Mask => String::from_str("mask.svg"),
            EntryKind::Pike => String::from_str("pike.svg"),
            EntryKind::PoisonDefault => String::from_str("poison_default.svg"),
            EntryKind::PotionDefault => String::from_str("default_potion.svg"),
            EntryKind::PotionFireResist => String::from_str("potion_fire_resist.svg"),
            EntryKind::PotionFrostResist => String::from_str("potion_frost_resist.svg"),
            EntryKind::PotionHealth => String::from_str("potion_health.svg"),
            EntryKind::PotionMagicka => String::from_str("potion_magicka.svg"),
            EntryKind::PotionMagicResist => String::from_str("potion_magic_resist.svg"),
            EntryKind::PotionShockResist => String::from_str("potion_shock_resist.svg"),
            EntryKind::PotionStamina => String::from_str("potion_stamina.svg"),
            EntryKind::Power => String::from_str("power.svg"),
            EntryKind::QuarterStaff => String::from_str("quarterstaff.svg"),
            EntryKind::Rapier => String::from_str("rapier.svg"),
            EntryKind::Restoration => String::from_str("restoration.svg"),
            EntryKind::Scroll => String::from_str("scroll.svg"),
            EntryKind::Shield => String::from_str("shield.svg"),
            EntryKind::Shout => String::from_str("shout.svg"),
            EntryKind::SpellDefault => String::from_str("spell_default.svg"),
            EntryKind::Staff => String::from_str("staff.svg"),
            EntryKind::SwordOneHanded => String::from_str("sword_one_handed.svg"),
            EntryKind::SwordTwoHanded => String::from_str("sword_two_handed.svg"),
            EntryKind::Torch => String::from_str("torch.svg"),
            EntryKind::WeaponDefault => String::from_str("sword_one_handed.svg"),
            EntryKind::Whip => String::from_str("whip.svg"),
            _ => String::from_str("default_icon.svg"),
        }
    }

    /// Check if this entry is a magic spell or scroll of any type.
    pub open spec fn spec_is_magic(self) -> bool {
        match self {
            EntryKind::Alteration | EntryKind::Conjuration | EntryKind::Destruction | EntryKind::DestructionFire | EntryKind::DestructionFrost | EntryKind::DestructionShock | EntryKind::Illusion | EntryKind::Restoration | EntryKind::SpellDefault | EntryKind::Scroll => true,
            _ => false,
        }
    }

    /// Check if this entry is a magic spell or scroll of any type.
    pub fn is_magic(&self) -> (r: bool)
        ensures
            r == self.spec_is_magic(),
    {
        match self {
            EntryKind::Alteration | EntryKind::Conjuration | EntryKind::Destruction | EntryKind::DestructionFire | EntryKind::DestructionFrost | EntryKind::DestructionShock | EntryKind::Illusion | EntryKind::Restoration | EntryKind::SpellDefault | EntryKind::Scroll => true,
            _ => false,
        }
    }

    /// Check if this entry is a weapon of any kind.
    pub open spec fn spec_is_weapon(self) -> bool {
        match self {
            EntryKind::AxeOneHanded | EntryKind::AxeTwoHanded | EntryKind::Bow | EntryKind::Claw | EntryKind::Crossbow | EntryKind::Dagger | EntryKind::Halberd | EntryKind::HandToHand | EntryKind::Katana | EntryKind::Mace | EntryKind::Pike | EntryKind::QuarterStaff | EntryKind::Rapier | EntryKind::Staff | EntryKind::SwordOneHanded | EntryKind::SwordTwoHanded | EntryKind::WeaponDefault | EntryKind::Whip => true,
            _ => false,
        }
    }

    /// Check if this entry is a weapon of any kind.
    pub fn is_weapon(&self) -> (r: bool)
        ensures
            r == self.spec_is_weapon(),
    {
        match self {
            EntryKind::AxeOneHanded | EntryKind::AxeTwoHanded | EntryKind::Bow | EntryKind::Claw | EntryKind::Crossbow | EntryKind::Dagger | EntryKind::Halberd | EntryKind::HandToHand | EntryKind::Katana | EntryKind::Mace | EntryKind::Pike | EntryKind::QuarterStaff | EntryKind::Rapier | EntryKind::Staff | EntryKind::SwordOneHanded | EntryKind::SwordTwoHanded | EntryKind::WeaponDefault | EntryKind::Whip => true,
            _ => false,
        }
    }

    /// Check if this item is wearable armor.
    pub open spec fn spec_is_armor(self) -> bool {
        match self {
            EntryKind::ArmorClothing | EntryKind::ArmorHeavy | EntryKind::ArmorLight | EntryKind::Lantern | EntryKind::Mask => true,
            _ => false,
        }
    }

    /// Check if this item is wearable armor.
    pub fn is_armor(&self) -> (r: bool)
        ensures
            r == self.spec_is_armor(),
    {
        match self {
            EntryKind::ArmorClothing | EntryKind::ArmorHeavy | EntryKind::ArmorLight | EntryKind::Lantern | EntryKind::Mask => true,
            _ => false,
        }
    }

    /// Check if this entry can be equipped in the left hand: weapons, magic, shields and torches.
    pub open spec fn spec_left_hand_ok(self) -> bool {
        self.spec_is_weapon() || self.spec_is_magic() || self is Shield || self is Torch
    }

    /// Check if this entry can be equipped in the left hand: weapons, magic, shields and torches.
    pub fn left_hand_ok(&self) -> (r: bool)
        ensures
            r == self.spec_left_hand_ok(),
    {
        self.is_weapon() || self.is_magic() || matches!(*self, EntryKind::Shield | EntryKind::Torch)
    }

    /// Check if this entry can be equipped in the right hand: weapons and magic.
    pub open spec fn spec_right_hand_ok(self) -> bool {
        self.spec_is_weapon() || self.spec_is_magic()
    }

    /// Check if this entry can be equipped in the right hand: weapons and magic.
    pub fn right_hand_ok(&self) -> (r: bool)
        ensures
            r == self.spec_right_hand_ok(),
    {
        self.is_weapon() || self.is_magic()
    }

    /// Check if this entry is a shout or power.
    pub open spec fn spec_is_power(self) -> bool {
        self is Shout || self is Power
    }

    /// Check if this entry is a shout or power.
    pub fn is_power(&self) -> (r: bool)
        ensures
            r == self.spec_is_power(),
    {
        matches!(*self, EntryKind::Shout | EntryKind::Power)
    }

    /// Check if this entry is a utility item: armor, consumables and poisons.
    pub open spec fn spec_is_utility(self) -> bool {
        match self {
            EntryKind::ArmorClothing | EntryKind::ArmorHeavy | EntryKind::ArmorLight | EntryKind::Food | EntryKind::Lantern | EntryKind::Mask | EntryKind::PoisonDefault | EntryKind::PotionDefault | EntryKind::PotionFireResist | EntryKind::PotionFrostResist | EntryKind::PotionHealth | EntryKind::PotionMagicka | EntryKind::PotionMagicResist | EntryKind::PotionShockResist | EntryKind::PotionStamina => true,
            _ => false,
        }
    }

    /// Check if this entry is a utility item: armor, consumables and poisons.
    pub fn is_utility(&self) -> (r: bool)
        ensures
            r == self.spec_is_utility(),
    {
        match self {
            EntryKind::ArmorClothing | EntryKind::ArmorHeavy | EntryKind::ArmorLight | EntryKind::Food | EntryKind::Lantern | EntryKind::Mask | EntryKind::PoisonDefault | EntryKind::PotionDefault | EntryKind::PotionFireResist | EntryKind::PotionFrostResist | EntryKind::PotionHealth | EntryKind::PotionMagicka | EntryKind::PotionMagicResist | EntryKind::PotionShockResist | EntryKind::PotionStamina => true,
            _ => false,
        }
    }

}

} // verus!
