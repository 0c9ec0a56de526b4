//! Classification helpers for the item kind shared with the game side.

use vstd::prelude::*;

verus! {

/// The kind of an entry, which picks its icon and the cycles it may join.
#[derive(Clone, Copy, Debug, PartialEq, Eq, Hash, Structural)]
pub enum ItemKind {
    Empty,
    Alteration,
    ArmorClothing,
    ArmorHeavy,
    ArmorLight,
    Arrow,
    AxeOneHanded,
    AxeTwoHanded,
    Bow,
    Claw,
    Conjuration,
    Crossbow,
    Dagger,
    DestructionFire,
    DestructionFrost,
    DestructionShock,
    Destruction,
    Food,
    Halberd,
    HandToHand,
    IconDefault,
    Illusion,
    Katana,
    Lantern,
    Mace,
    Mask,
    Pike,
    PoisonDefault,
    PotionDefault,
    PotionFireResist,
    PotionFrostResist,
    PotionHealth,
    PotionMagicka,
    PotionMagicResist,
    PotionShockResist,
    PotionStamina,
    Power,
    QuarterStaff,
    Rapier,
    Restoration,
    Scroll,
    Shield,
    Shout,
    SpellDefault,
    Staff,
    SwordOneHanded,
    SwordTwoHanded,
    Torch,
    WeaponDefault,
    Whip,
    NotFound,
}

/// Given an entry kind, return the filename of the icon to use for it.
pub fn get_icon_file(kind: &ItemKind) -> (r: String)
    ensures
        r@ == kind.spec_icon_file(),
{
    kind.icon_file()
}

/// Whether items of this kind show a count.
pub fn kind_has_count(kind: ItemKind) -> (r: bool)
    ensures
        r == kind.spec_show_count(),
{
    kind.show_count()
}

/// Whether items of this kind are spells or scrolls.
pub fn kind_is_magic(kind: ItemKind) -> (r: bool)
    ensures
        r == kind.spec_is_magic(),
{
    kind.is_magic()
}

impl Default for ItemKind {
    fn default() -> (r: Self)
        ensures
            r == ItemKind::NotFound,
    {
        ItemKind::NotFound
    }
}

impl ItemKind {
    /// The icon file name for each kind; kinds without an icon of their own get `default_icon.svg`.
    pub open spec fn spec_icon_file(self) -> Seq<char> {
        match self {
            ItemKind::Alteration => "alteration.svg"@,
            ItemKind::ArmorClothing => "armor_clothing.svg"@,
            ItemKind::ArmorHeavy => "armor_heavy.svg"@,
            ItemKind::ArmorLight => "armor_light.svg"@,
            ItemKind::Arrow => "arrow.svg"@,
            ItemKind::AxeOneHanded => "axe_one_handed.svg"@,
            ItemKind::AxeTwoHanded => "axe_two_handed.svg"@,
            ItemKind::Bow => "bow.svg"@,
            ItemKind::Claw => "claw.svg"@,
            ItemKind::Conjuration => "conjuration.svg"@,
            ItemKind::Crossbow => "crossbow.svg"@,
            ItemKind::Dagger => "dagger.svg"@,
            ItemKind::DestructionFire => "destruction_fire.svg"@,
            ItemKind::DestructionFrost => "destruction_frost.svg"@,
            ItemKind::DestructionShock => "destruction_shock.svg"@,
            ItemKind::Destruction => "destruction.svg"@,
            ItemKind::Food => "food.svg"@,
            ItemKind::Halberd => "halberd.svg"@,
            ItemKind::HandToHand => "hand_to_hand.svg"@,
            ItemKind::IconDefault => "icon_default.svg"@,
            ItemKind::Illusion => "illusion.svg"@,
            ItemKind::Katana => "katana.svg"@,
            ItemKind::Lantern => "lantern.svg"@,
            ItemKind::Mace => "mace.svg"@,
            ItemKind::Mask => "mask.svg"@,
            ItemKind::Pike => "pike.svg"@,
            ItemKind::PoisonDefault => "poison_default.svg"@,
            ItemKind::PotionDefault => "default_potion.svg"@,
            ItemKind::PotionFireResist => "potion_fire_resist.svg"@,
            ItemKind::PotionFrostResist => "potion_frost_resist.svg"@,
            ItemKind::PotionHealth => "potion_health.svg"@,
            ItemKind::PotionMagicka => "potion_magicka.svg"@,
            ItemKind::PotionMagicResist => "potion_magic_resist.svg"@,
            ItemKind::PotionShockResist => "potion_shock_resist.svg"@,
            ItemKind::PotionStamina => "potion_stamina.svg"@,
            ItemKind::Power => "power.svg"@,
            ItemKind::QuarterStaff => "quarter_staff.svg"@,
            ItemKind::Rapier => "rapier.svg"@,
            ItemKind::Restoration => "restoration.svg"@,
            ItemKind::Scroll => "scroll.svg"@,
            ItemKind::Shield => "shield.svg"@,
            ItemKind::Shout => "shout.svg"@,
            ItemKind::SpellDefault => "spell_default.svg"@,
            ItemKind::Staff => "staff.svg"@,
            ItemKind::SwordOneHanded => "sword_one_handed.svg"@,
            ItemKind::SwordTwoHanded => "sword_two_handed.svg"@,
            ItemKind::Torch => "torch.svg"@,
            ItemKind::WeaponDefault => "sword_one_handed.svg"@,
            ItemKind::Whip => "whip.svg"@,
            _ => "default_icon.svg"@,
        }
    }

    /// Get the filename of the icon to use for this entry kind.
    pub fn icon_file(&self) -> (r: String)
        ensures
            r@ == self.spec_icon_file(),
    {
        match self {
            ItemKind::Alteration => String::from_str("alteration.svg"),
            ItemKind::ArmorClothing => String::from_str("armor_clothing.svg"),
            ItemKind::ArmorHeavy => String::from_str("armor_heavy.svg"),
            ItemKind::ArmorLight => String::from_str("armor_light.svg"),
            ItemKind::Arrow => String::from_str("arrow.svg"),
            ItemKind::AxeOneHanded => String::from_str("axe_one_handed.svg"),
            ItemKind::AxeTwoHanded => String::from_str("axe_two_handed.svg"),
            ItemKind::Bow => String::from_str("bow.svg"),
            ItemKind::Claw => String::from_str("claw.svg"),
            ItemKind::Conjuration => String::from_str("conjuration.svg"),
            ItemKind::Crossbow => String::from_str("crossbow.svg"),
            ItemKind::Dagger => String::from_str("dagger.svg"),
            ItemKind::DestructionFire => String::from_str("destruction_fire.svg"),
            ItemKind::DestructionFrost => String::from_str("destruction_frost.svg"),
            ItemKind::DestructionShock => String::from_str("destruction_shock.svg"),
            ItemKind::Destruction => String::from_str("destruction.svg"),
            ItemKind::Food => String::from_str("food.svg"),
            ItemKind::Halberd => String::from_str("halberd.svg"),
            ItemKind::HandToHand => String::from_str("hand_to_hand.svg"),
            ItemKind::IconDefault => String::from_str("icon_default.svg"),
            ItemKind::Illusion => String::from_str("illusion.svg"),
            ItemKind::Katana => String::from_str("katana.svg"),
            ItemKind::Lantern => String::from_str("lantern.svg"),
            ItemKind::Mace => String::from_str("mace.svg"),
            ItemKind::Mask => String::from_str("mask.svg"),
            ItemKind::Pike => String::from_str("pike.svg"),
            ItemKind::PoisonDefault => String::from_str("poison_default.svg"),
            ItemKind::PotionDefault => String::from_str("default_potion.svg"),
            ItemKind::PotionFireResist => String::from_str("potion_fire_resist.svg"),
            ItemKind::PotionFrostResist => String::from_str("potion_frost_resist.svg"),
            ItemKind::PotionHealth => String::from_str("potion_health.svg"),
            ItemKind::PotionMagicka => String::from_str("potion_magicka.svg"),
            ItemKind::PotionMagicResist => String::from_str("potion_magic_resist.svg"),
            ItemKind::PotionShockResist => String::from_str("potion_shock_resist.svg"),
            ItemKind::PotionStamina => String::from_str("potion_stamina.svg"),
            ItemKind::Power => String::from_str("power.svg"),
            ItemKind::QuarterStaff => String::from_str("quarter_staff.svg"),
            ItemKind::Rapier => String::from_str("rapier.svg"),
            ItemKind::Restoration => String::from_str("restoration.svg"),
            ItemKind::Scroll => String::from_str("scroll.svg"),
            ItemKind::Shield => String::from_str("shield.svg"),
            ItemKind::Shout => String::from_str("shout.svg"),
            ItemKind::SpellDefault => String::from_str("spell_default.svg"),
            ItemKind::Staff => String::from_str("staff.svg"),
            ItemKind::SwordOneHanded => String::from_str("sword_one_handed.svg"),
            ItemKind::SwordTwoHanded => String::from_str("sword_two_handed.svg"),
            ItemKind::Torch => String::from_str("torch.svg"),
            ItemKind::WeaponDefault => String::from_str("sword_one_handed.svg"),
            ItemKind::Whip => String::from_str("whip.svg"),
            _ => String::from_str("default_icon.svg"),
        }
    }

    /// Check if this entry is a magic spell or scroll of any type.
    pub open spec fn spec_is_magic(self) -> bool {
        match self {
            ItemKind::Alteration | ItemKind::Conjuration | ItemKind::Destruction | ItemKind::DestructionFire | ItemKind::DestructionFrost | ItemKind::DestructionShock | ItemKind::Illusion | ItemKind::Restoration | ItemKind::SpellDefault | ItemKind::Scroll => true,
            _ => false,
        }
    }

    /// Check if this entry is a magic spell or scroll of any type.
    pub fn is_magic(&self) -> (r: bool)
        ensures
            r == self.spec_is_magic(),
    {
        match self {
            ItemKind::Alteration | ItemKind::Conjuration | ItemKind::Destruction | ItemKind::DestructionFire | ItemKind::DestructionFrost | ItemKind::DestructionShock | ItemKind::Illusion | ItemKind::Restoration | ItemKind::SpellDefault | ItemKind::Scroll => true,
            _ => false,
        }
    }

    /// Check if this entry is a weapon of any kind.
    pub open spec fn spec_is_weapon(self) -> bool {
        match self {
            ItemKind::AxeOneHanded | ItemKind::AxeTwoHanded | ItemKind::Bow | ItemKind::Claw | ItemKind::Crossbow | ItemKind::Dagger | ItemKind::Halberd | ItemKind::HandToHand | ItemKind::Katana | ItemKind::Mace | ItemKind::Pike | ItemKind::QuarterStaff | ItemKind::Rapier | ItemKind::Staff | ItemKind::SwordOneHanded | ItemKind::SwordTwoHanded | ItemKind::Whip => true,
            _ => false,
        }
    }

    /// Check if this entry is a weapon of any kind.
    pub fn is_weapon(&self) -> (r: bool)
        ensures
            r == self.spec_is_weapon(),
    {
        match self {
            ItemKind::AxeOneHanded | ItemKind::AxeTwoHanded | ItemKind::Bow | ItemKind::Claw | ItemKind::Crossbow | ItemKind::Dagger | ItemKind::Halberd | ItemKind::HandToHand | ItemKind::Katana | ItemKind::Mace | ItemKind::Pike | ItemKind::QuarterStaff | ItemKind::Rapier | ItemKind::Staff | ItemKind::SwordOneHanded | ItemKind::SwordTwoHanded | ItemKind::Whip => true,
            _ => false,
        }
    }

    /// Check if this item is wearable armor.
    pub open spec fn spec_is_armor(self) -> bool {
        match self {
            ItemKind::ArmorClothing | ItemKind::ArmorHeavy | ItemKind::ArmorLight | ItemKind::Lantern | ItemKind::Mask => true,
            _ => false,
        }
    }

    /// Check if this item is wearable armor.
    pub fn is_armor(&self) -> (r: bool)
        ensures
            r == self.spec_is_armor(),
    {
        match self {
            ItemKind::ArmorClothing | ItemKind::ArmorHeavy | ItemKind::ArmorLight | ItemKind::Lantern | ItemKind::Mask => true,
            _ => false,
        }
    }

    /// Check if this entry is a weapon wielded in one hand.
    pub open spec fn spec_is_one_handed_weapon(self) -> bool {
        match self {
            ItemKind::AxeOneHanded | ItemKind::Claw | ItemKind::Dagger | ItemKind::HandToHand | ItemKind::Katana | ItemKind::Mace | ItemKind::Rapier | ItemKind::SwordOneHanded | ItemKind::Whip => true,
            _ => false,
        }
    }

    /// Check if this entry is a weapon wielded in one hand.
    pub fn is_one_handed_weapon(&self) -> (r: bool)
        ensures
            r == self.spec_is_one_handed_weapon(),
    {
        match self {
            ItemKind::AxeOneHanded | ItemKind::Claw | ItemKind::Dagger | ItemKind::HandToHand | ItemKind::Katana | ItemKind::Mace | ItemKind::Rapier | ItemKind::SwordOneHanded | ItemKind::Whip => true,
            _ => false,
        }
    }

    /// Check if this item is gluggable.
    pub open spec fn spec_is_potion(self) -> bool {
        match self {
            ItemKind::PotionDefault | ItemKind::PotionFireResist | ItemKind::PotionFrostResist | ItemKind::PotionHealth | ItemKind::PotionMagicka | ItemKind::PotionMagicResist | ItemKind::PotionShockResist | ItemKind::PotionStamina => true,
            _ => false,
        }
    }

    /// Check if this item is gluggable.
    pub fn is_potion(&self) -> (r: bool)
        ensures
            r == self.spec_is_potion(),
    {
        match self {
            ItemKind::PotionDefault | ItemKind::PotionFireResist | ItemKind::PotionFrostResist | ItemKind::PotionHealth | ItemKind::PotionMagicka | ItemKind::PotionMagicResist | ItemKind::PotionShockResist | ItemKind::PotionStamina => true,
            _ => false,
        }
    }

    /// Check if this entry is a kind of ammo.
    pub open spec fn spec_is_ammo(self) -> bool {
        self is Arrow
    }

    /// Check if this entry is a kind of ammo.
    pub fn is_ammo(&self) -> (r: bool)
        ensures
            r == self.spec_is_ammo(),
    {
        matches!(*self, ItemKind::Arrow)
    }

    /// Whether a count is shown: armor, weapons, potions, arrows and scrolls.
    pub open spec fn spec_show_count(self) -> bool {
        self.spec_is_armor() || self.spec_is_weapon() || self.spec_is_potion() || self is Arrow || self is Scroll
    }

    /// Whether a count is shown: armor, weapons, potions, arrows and scrolls.
    pub fn show_count(&self) -> (r: bool)
        ensures
            r == self.spec_show_count(),
    {
        self.is_armor() || self.is_weapon() || self.is_potion() || matches!(*self, ItemKind::Arrow | ItemKind::Scroll)
    }

    /// Check if this entry can be equipped in the left hand: one-handed weapons, magic, shields and torches.
    pub open spec fn spec_left_hand_ok(self) -> bool {
        self.spec_is_one_handed_weapon() || self.spec_is_magic() || self is Shield || self is Torch
    }

    /// Check if this entry can be equipped in the left hand: one-handed weapons, magic, shields and torches.
    pub fn left_hand_ok(&self) -> (r: bool)
        ensures
            r == self.spec_left_hand_ok(),
    {
        self.is_one_handed_weapon() || self.is_magic() || matches!(*self, ItemKind::Shield | ItemKind::Torch)
    }

    /// Check if this entry can be equipped in the right hand: weapons and magic.
    pub open spec fn spec_right_hand_ok(self) -> bool {
        self.spec_is_weapon() || self.spec_is_magic()
    }

    /// Check if this entry can be equipped in the right hand: weapons and magic.
    pub fn right_hand_ok(&self) -> (r: bool)
        ensures
            r == self.spec_right_hand_ok(),
    {
        self.is_weapon() || self.is_magic()
    }

    /// Check if this entry is a shout or power.
    pub open spec fn spec_is_power(self) -> bool {
        self is Shout || self is Power
    }

    /// Check if this entry is a shout or power.
    pub fn is_power(&self) -> (r: bool)
        ensures
            r == self.spec_is_power(),
    {
        matches!(*self, ItemKind::Shout | ItemKind::Power)
    }

    /// Check if this entry is a utility item: armor, consumables and poisons.
    pub open spec fn spec_is_utility(self) -> bool {
        match self {
            ItemKind::Arrow | ItemKind::ArmorClothing | ItemKind::ArmorHeavy | ItemKind::ArmorLight | ItemKind::Food | ItemKind::Lantern | ItemKind::Mask | ItemKind::PoisonDefault | ItemKind::PotionDefault | ItemKind::PotionFireResist | ItemKind::PotionFrostResist | ItemKind::PotionHealth | ItemKind::PotionMagicka | ItemKind::PotionMagicResist | ItemKind::PotionShockResist | ItemKind::PotionStamina => true,
            _ => false,
        }
    }

    /// Check if this entry is a utility item: armor, consumables and poisons.
    pub fn is_utility(&self) -> (r: bool)
        ensures
            r == self.spec_is_utility(),
    {
        match self {
            ItemKind::Arrow | ItemKind::ArmorClothing | ItemKind::ArmorHeavy | ItemKind::ArmorLight | ItemKind::Food | ItemKind::Lantern | ItemKind::Mask | ItemKind::PoisonDefault | ItemKind::PotionDefault | ItemKind::PotionFireResist | ItemKind::PotionFrostResist | ItemKind::PotionHealth | ItemKind::PotionMagicka | ItemKind::PotionMagicResist | ItemKind::PotionShockResist | ItemKind::PotionStamina => true,
            _ => false,
        }
    }

}

} // verus!
