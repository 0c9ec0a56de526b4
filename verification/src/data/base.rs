//! Base item kinds: what an item is, which cycles it may join, and how it
//! is drawn.

use vstd::prelude::*;

use super::ammo::AmmoType;
use super::armor::ArmorType;
use super::color::InvColor;
use super::food::FoodType;
use super::keywords::parsed_keywords;
use super::potion::PotionType;
use super::shout::ShoutType;
use super::spell::SpellType;
use super::weapon::WeaponType;
use super::{HasIcon, HasKeywords, IsHudItem};
use crate::images::icons::Icon;
use crate::plugin::{Color, ItemCategory};

verus! {

/// What kind of thing an item is.
#[derive(Clone, Copy, Debug, PartialEq, Eq, Hash, Structural)]
pub enum BaseType {
    Empty,
    Ammo(AmmoType),
    Armor(ArmorType),
    Food(FoodType),
    HandToHand,
    Light(LightType),
    Potion(PotionType),
    PotionProxy(Proxy),
    Power,
    Scroll(SpellType),
    Shout(ShoutType),
    Spell(SpellType),
    Weapon(WeaponType),
    Equipset(Icon),
}

impl Default for BaseType {
    fn default() -> (r: Self)
        ensures
            r == BaseType::Empty,
    {
        BaseType::Empty
    }
}

/// Stand-ins for the best potion of a kind the player carries.
#[derive(Clone, Copy, Debug, PartialEq, Eq, Hash, Structural)]
pub enum Proxy {
    Health,
    Magicka,
    Stamina,
}

impl Proxy {
    /// The color each proxy is drawn with.
    pub open spec fn spec_color(self) -> Color {
        match self {
            Proxy::Health => InvColor::Red.spec_color(),
            Proxy::Magicka => InvColor::Blue.spec_color(),
            Proxy::Stamina => InvColor::Green.spec_color(),
        }
    }

    /// The icon of each proxy.
    pub open spec fn spec_icon(self) -> Icon {
        match self {
            Proxy::Health => Icon::PotionHealth,
            Proxy::Magicka => Icon::PotionMagicka,
            Proxy::Stamina => Icon::PotionStamina,
        }
    }
}

impl HasIcon for Proxy {
    fn color(&self) -> (r: Color)
        ensures
            r == self.spec_color(),
    {
        match self {
            Proxy::Health => InvColor::Red.color(),
            Proxy::Magicka => InvColor::Blue.color(),
            Proxy::Stamina => InvColor::Green.color(),
        }
    }

    fn icon(&self) -> (r: &Icon)
        ensures
            *r == self.spec_icon(),
    {
        match self {
            Proxy::Health => &Icon::PotionHealth,
            Proxy::Magicka => &Icon::PotionMagicka,
            Proxy::Stamina => &Icon::PotionStamina,
        }
    }
}

/// Light sources held in the left hand.
#[derive(Clone, Copy, Debug, PartialEq, Eq, Hash, Structural)]
pub enum LightType {
    Torch,
    Lantern,
}

impl Default for LightType {
    fn default() -> (r: Self)
        ensures
            r == LightType::Torch,
    {
        LightType::Torch
    }
}

impl LightType {
    /// The icon of each light.
    pub open spec fn spec_icon(self) -> Icon {
        match self {
            LightType::Torch => Icon::MiscTorch,
            LightType::Lantern => Icon::MiscLantern,
        }
    }
}

impl HasIcon for LightType {
    fn color(&self) -> (r: Color)
        ensures
            r == InvColor::Sun.spec_color(),
    {
        InvColor::Sun.color()
    }

    fn icon(&self) -> (r: &Icon)
        ensures
            *r == self.spec_icon(),
    {
        match self {
            LightType::Torch => &Icon::MiscTorch,
            LightType::Lantern => &Icon::MiscLantern,
        }
    }
}

impl BaseType {
    /// The kind of an item of a category with these keywords.
    pub open spec fn spec_classify(
        category: ItemCategory,
        keywords: Seq<Seq<char>>,
        twohanded: bool,
    ) -> BaseType {
        match category {
            ItemCategory::Ammo => BaseType::Ammo(AmmoType::spec_classify(keywords)),
            ItemCategory::Armor => BaseType::Armor(ArmorType::spec_classify(keywords)),
            ItemCategory::Food => BaseType::Food(FoodType::spec_classify(keywords)),
            ItemCategory::HandToHand => BaseType::HandToHand,
            ItemCategory::Lantern => BaseType::Light(LightType::Lantern),
            ItemCategory::Potion => BaseType::Potion(PotionType::Default),
            ItemCategory::Power => BaseType::Power,
            ItemCategory::Scroll => BaseType::Scroll(SpellType::spec_default()),
            ItemCategory::Shout => BaseType::Shout(
                ShoutType::spec_from_keywords(parsed_keywords(keywords)),
            ),
            ItemCategory::Spell => BaseType::Spell(SpellType::spec_default()),
            ItemCategory::Torch => BaseType::Light(LightType::Torch),
            ItemCategory::Weapon => BaseType::Weapon(WeaponType::spec_classify(keywords, twohanded)),
            ItemCategory::Empty => BaseType::Empty,
        }
    }

    /// Classify an item of the given category from its keywords.
    pub fn classify(name: &str, category: ItemCategory, keywords: Vec<String>, twohanded: bool) -> (r: Self)
        ensures
            r == BaseType::spec_classify(category, keywords@.map_values(|k: String| k@), twohanded),
    {
        match category {
            ItemCategory::Ammo => BaseType::Ammo(AmmoType::classify(name, keywords, twohanded)),
            ItemCategory::Armor => BaseType::Armor(ArmorType::classify(name, keywords, twohanded)),
            ItemCategory::Food => BaseType::Food(FoodType::classify(name, keywords, twohanded)),
            ItemCategory::HandToHand => BaseType::HandToHand,
            ItemCategory::Lantern => BaseType::Light(LightType::Lantern),
            ItemCategory::Potion => BaseType::Potion(PotionType::Default),
            ItemCategory::Power => BaseType::Power,
            ItemCategory::Scroll => BaseType::Scroll(SpellType::default()),
            ItemCategory::Shout => BaseType::Shout(ShoutType::new(keywords)),
            ItemCategory::Spell => BaseType::Spell(SpellType::default()),
            ItemCategory::Torch => BaseType::Light(LightType::Torch),
            ItemCategory::Weapon => BaseType::Weapon(WeaponType::classify(name, keywords, twohanded)),
            ItemCategory::Empty => BaseType::Empty,
        }
    }

    /// The icon to draw when the item's own icon is missing.
    pub open spec fn spec_icon_fallback(self) -> Icon {
        match self {
            BaseType::Empty => Icon::IconDefault,
            BaseType::Ammo(_) => Icon::AmmoArrow,
            BaseType::Armor(_) => Icon::ArmorHeavy,
            BaseType::Food(_) => Icon::Food,
            BaseType::HandToHand => Icon::HandToHand,
            BaseType::Light(_) => Icon::MiscTorch,
            BaseType::Potion(_) => Icon::PotionDefault,
            BaseType::PotionProxy(_) => Icon::PotionDefault,
            BaseType::Power => Icon::Power,
            BaseType::Scroll(_) => Icon::Scroll,
            BaseType::Shout(_) => Icon::Shout,
            BaseType::Spell(t) => t.spec_icon_fallback(),
            BaseType::Weapon(_) => Icon::WeaponSwordOneHanded,
            BaseType::Equipset(_) => Icon::ArmorHeavy,
        }
    }

    /// The icon to draw when the item's own icon is missing.
    pub fn icon_fallback(&self) -> (r: Icon)
        ensures
            r == self.spec_icon_fallback(),
    {
        match self {
            BaseType::Empty => Icon::IconDefault,
            BaseType::Ammo(_) => Icon::AmmoArrow,
            BaseType::Armor(_) => Icon::ArmorHeavy,
            BaseType::Food(_) => Icon::Food,
            BaseType::HandToHand => Icon::HandToHand,
            BaseType::Light(_) => Icon::MiscTorch,
            BaseType::Potion(_) => Icon::PotionDefault,
            BaseType::PotionProxy(_) => Icon::PotionDefault,
            BaseType::Power => Icon::Power,
            BaseType::Scroll(_) => Icon::Scroll,
            BaseType::Shout(_) => Icon::Shout,
            BaseType::Spell(t) => t.icon_fallback(),
            BaseType::Weapon(_) => Icon::WeaponSwordOneHanded,
            BaseType::Equipset(_) => Icon::ArmorHeavy,
        }
    }

    /// The color an item of this kind is drawn with.
    pub open spec fn spec_color(self) -> Color {
        match self {
            BaseType::Empty => InvColor::White.spec_color(),
            BaseType::Ammo(t) => t.inv_color().spec_color(),
            BaseType::Armor(t) => t.color.spec_color(),
            BaseType::Equipset(_) => InvColor::White.spec_color(),
            BaseType::Food(t) => t.color.spec_color(),
            BaseType::HandToHand => InvColor::White.spec_color(),
            BaseType::Light(_) => InvColor::Sun.spec_color(),
            BaseType::Potion(t) => t.spec_color(),
            BaseType::PotionProxy(t) => t.spec_color(),
            BaseType::Power => InvColor::White.spec_color(),
            BaseType::Scroll(t) => t.color.spec_color(),
            BaseType::Shout(t) => t.color.spec_color(),
            BaseType::Spell(t) => t.color.spec_color(),
            BaseType::Weapon(t) => t.color.spec_color(),
        }
    }

    /// The icon an item of this kind is drawn with.
    pub open spec fn spec_icon(self) -> Icon {
        match self {
            BaseType::Empty => Icon::IconDefault,
            BaseType::Ammo(t) => t.spec_icon(),
            BaseType::Armor(t) => t.icon,
            BaseType::Equipset(t) => t,
            BaseType::Food(t) => t.icon,
            BaseType::HandToHand => Icon::HandToHand,
            BaseType::Light(t) => t.spec_icon(),
            BaseType::Potion(t) => t.spec_icon(),
            BaseType::PotionProxy(t) => t.spec_icon(),
            BaseType::Power => Icon::Power,
            BaseType::Scroll(_) => Icon::Scroll,
            BaseType::Shout(t) => t.icon,
            BaseType::Spell(t) => t.icon,
            BaseType::Weapon(t) => t.icon,
        }
    }

    /// Whether the count of such items matters.
    pub open spec fn spec_count_matters(self) -> bool {
        match self {
            BaseType::Ammo(_) | BaseType::Armor(_) | BaseType::Food(_) | BaseType::Light(_)
            | BaseType::Potion(_) | BaseType::PotionProxy(_) | BaseType::Scroll(_)
            | BaseType::Weapon(_) => true,
            _ => false,
        }
    }

    /// Whether the item is a powers-and-shouts item.
    pub open spec fn spec_is_power(self) -> bool {
        self is Power || self is Shout
    }

    /// Whether the item belongs in the utility cycle.
    pub open spec fn spec_is_utility(self) -> bool {
        match self {
            BaseType::Armor(t) => t.spec_is_utility(),
            BaseType::Food(_) | BaseType::Potion(_) | BaseType::PotionProxy(_) => true,
            _ => false,
        }
    }

    /// Whether the item is held in one hand.
    pub open spec fn spec_is_one_handed(self) -> bool {
        match self {
            BaseType::Weapon(t) => t.spec_is_one_handed(),
            BaseType::Spell(t) => !t.data.twohanded,
            _ => true,
        }
    }

    /// Whether the item needs both hands.
    pub open spec fn spec_two_handed(self) -> bool {
        !(self is Armor) && !self.spec_is_one_handed()
    }

    /// Whether the item may go in the left hand.
    pub open spec fn spec_left_hand_ok(self) -> bool {
        match self {
            BaseType::Armor(t) => !t.spec_is_utility(),
            BaseType::HandToHand | BaseType::Light(_) => true,
            BaseType::Scroll(t) => !t.data.twohanded,
            BaseType::Spell(t) => !t.data.twohanded,
            BaseType::Weapon(t) => t.spec_left_hand_ok(),
            _ => false,
        }
    }

    /// Whether the item may go in the right hand.
    pub open spec fn spec_right_hand_ok(self) -> bool {
        match self {
            BaseType::HandToHand | BaseType::Scroll(_) | BaseType::Spell(_) => true,
            BaseType::Weapon(t) => t.spec_right_hand_ok(),
            _ => false,
        }
    }
}

/// The color of the first color keyword, white when there is none.
pub fn color_from_keywords(keywords: &[String]) -> (r: InvColor)
    ensures
        r == match super::color::first_keyword_color(keywords@.map_values(|k: String| k@)) {
            Some(c) => c,
            None => InvColor::White,
        },
{
    super::color::color_from_keywords(keywords)
}

impl HasIcon for BaseType {
    fn color(&self) -> (r: Color)
        ensures
            r == self.spec_color(),
    {
        match self {
            BaseType::Empty => Color::default(),
            BaseType::Ammo(t) => t.color(),
            BaseType::Armor(t) => t.color(),
            BaseType::Equipset(_) => Color::default(),
            BaseType::Food(t) => t.color(),
            BaseType::HandToHand => Color::default(),
            BaseType::Light(t) => t.color(),
            BaseType::Potion(t) => t.color(),
            BaseType::PotionProxy(t) => t.color(),
            BaseType::Power => Color::default(),
            BaseType::Scroll(t) => t.color(),
            BaseType::Shout(t) => t.color(),
            BaseType::Spell(t) => t.color(),
            BaseType::Weapon(t) => t.color(),
        }
    }

    fn icon(&self) -> (r: &Icon)
        ensures
            *r == self.spec_icon(),
    {
        match self {
            BaseType::Empty => &Icon::IconDefault,
            BaseType::Ammo(t) => t.icon(),
            BaseType::Armor(t) => t.icon(),
            BaseType::Equipset(t) => t,
            BaseType::Food(t) => t.icon(),
            BaseType::HandToHand => &Icon::HandToHand,
            BaseType::Light(t) => t.icon(),
            BaseType::Potion(t) => t.icon(),
            BaseType::PotionProxy(t) => t.icon(),
            BaseType::Power => &Icon::Power,
            BaseType::Scroll(_) => &Icon::Scroll,
            BaseType::Shout(t) => t.icon(),
            BaseType::Spell(t) => t.icon(),
            BaseType::Weapon(t) => t.icon(),
        }
    }
}

impl IsHudItem for BaseType {
    fn count_matters(&self) -> (r: bool)
        ensures
            r == self.spec_count_matters(),
    {
        match self {
            BaseType::Ammo(_) | BaseType::Armor(_) | BaseType::Food(_) | BaseType::Light(_)
            | BaseType::Potion(_) | BaseType::PotionProxy(_) | BaseType::Scroll(_)
            | BaseType::Weapon(_) => true,
            _ => false,
        }
    }

    fn is_ammo(&self) -> (r: bool)
        ensures
            r == (*self is Ammo),
    {
        matches!(self, BaseType::Ammo(_))
    }

    fn is_armor(&self) -> (r: bool)
        ensures
            r == (*self is Armor),
    {
        matches!(self, BaseType::Armor(_))
    }

    fn is_magic(&self) -> (r: bool)
        ensures
            r == (*self is Spell || *self is Scroll),
    {
        matches!(self, BaseType::Spell(_) | BaseType::Scroll(_))
    }

    fn is_potion(&self) -> (r: bool)
        ensures
            r == (*self is Potion),
    {
        matches!(self, BaseType::Potion(_))
    }

    fn is_power(&self) -> (r: bool)
        ensures
            r == self.spec_is_power(),
    {
        matches!(self, BaseType::Power | BaseType::Shout(_))
    }

    fn is_spell(&self) -> (r: bool)
        ensures
            r == (*self is Spell),
    {
        matches!(self, BaseType::Spell(_))
    }

    /// Armor other than shields, food and potions are utility items; lights
    /// are held in the hand.
    fn is_utility(&self) -> (r: bool)
        ensures
            r == self.spec_is_utility(),
    {
        match self {
            BaseType::Armor(t) => t.is_utility(),
            BaseType::Food(_) | BaseType::Potion(_) | BaseType::PotionProxy(_) => true,
            _ => false,
        }
    }

    fn is_weapon(&self) -> (r: bool)
        ensures
            r == (*self is Weapon),
    {
        matches!(self, BaseType::Weapon(_))
    }

    fn is_one_handed(&self) -> (r: bool)
        ensures
            r == self.spec_is_one_handed(),
    {
        match self {
            BaseType::Weapon(t) => t.is_one_handed(),
            BaseType::Spell(t) => !t.is_two_handed(),
            _ => true,
        }
    }

    fn two_handed(&self) -> (r: bool)
        ensures
            r == self.spec_two_handed(),
    {
        if matches!(self, BaseType::Armor(..)) {
            false
        } else {
            !self.is_one_handed()
        }
    }

    fn left_hand_ok(&self) -> (r: bool)
        ensures
            r == self.spec_left_hand_ok(),
    {
        match self {
            BaseType::Armor(t) => !t.is_utility(),
            BaseType::HandToHand | BaseType::Light(_) => true,
            BaseType::Scroll(t) => !t.is_two_handed(),
            BaseType::Spell(t) => !t.is_two_handed(),
            BaseType::Weapon(t) => t.left_hand_ok(),
            _ => false,
        }
    }

    fn right_hand_ok(&self) -> (r: bool)
        ensures
            r == self.spec_right_hand_ok(),
    {
        match self {
            BaseType::HandToHand | BaseType::Scroll(_) | BaseType::Spell(_) => true,
            BaseType::Weapon(t) => t.right_hand_ok(),
            _ => false,
        }
    }
}

/// An item that goes in a hand never goes in the utility cycle, and an item
/// that needs both hands never goes in the left hand.
pub proof fn lemma_hand_items_are_not_utility(t: BaseType)
    ensures
        t.spec_left_hand_ok() ==> !t.spec_is_utility(),
        t.spec_right_hand_ok() ==> !t.spec_is_utility(),
        t.spec_two_handed() ==> !t.spec_left_hand_ok(),
        t.spec_is_power() ==> !t.spec_left_hand_ok() && !t.spec_right_hand_ok()
            && !t.spec_is_utility(),
{
}

/// Which hand takes which kind of item. The right hand takes every spell,
/// every scroll and bare hands; the left hand takes bare hands, every
/// light, and the spells and scrolls cast with one hand. Neither hand takes
/// ammunition, food, potions or their stand-ins, powers, shouts, equipment
/// sets or the empty kind, and the right hand takes no armor and no light.
pub proof fn lemma_hands_take(
    spell: SpellType,
    ammo: AmmoType,
    armor: ArmorType,
    food: FoodType,
    light: LightType,
    potion: PotionType,
    proxy: Proxy,
    shout: ShoutType,
    icon: Icon,
)
    ensures
        BaseType::Spell(spell).spec_right_hand_ok(),
        BaseType::Scroll(spell).spec_right_hand_ok(),
        BaseType::HandToHand.spec_right_hand_ok(),
        BaseType::HandToHand.spec_left_hand_ok(),
        BaseType::Light(light).spec_left_hand_ok(),
        BaseType::Spell(spell).spec_left_hand_ok() == !spell.data.twohanded,
        BaseType::Scroll(spell).spec_left_hand_ok() == !spell.data.twohanded,
        !BaseType::Armor(armor).spec_right_hand_ok(),
        !BaseType::Light(light).spec_right_hand_ok(),
        !BaseType::Ammo(ammo).spec_right_hand_ok() && !BaseType::Ammo(ammo).spec_left_hand_ok(),
        !BaseType::Food(food).spec_right_hand_ok() && !BaseType::Food(food).spec_left_hand_ok(),
        !BaseType::Potion(potion).spec_right_hand_ok() && !BaseType::Potion(potion).spec_left_hand_ok(),
        !BaseType::PotionProxy(proxy).spec_right_hand_ok() && !BaseType::PotionProxy(proxy).spec_left_hand_ok(),
        !BaseType::Power.spec_right_hand_ok() && !BaseType::Power.spec_left_hand_ok(),
        !BaseType::Shout(shout).spec_right_hand_ok() && !BaseType::Shout(shout).spec_left_hand_ok(),
        !BaseType::Equipset(icon).spec_right_hand_ok() && !BaseType::Equipset(icon).spec_left_hand_ok(),
        !BaseType::Empty.spec_right_hand_ok() && !BaseType::Empty.spec_left_hand_ok(),
{
}

/// Which items belong in the utility cycle and the powers cycle. Food,
/// potions and the potion stand-ins are utility items; spells, scrolls,
/// weapons, lights, ammunition, powers, shouts, bare hands, equipment sets
/// and the empty kind are not. Powers and shouts, and nothing else, belong
/// in the powers cycle.
pub proof fn lemma_utility_and_power_kinds(
    spell: SpellType,
    weapon: WeaponType,
    ammo: AmmoType,
    food: FoodType,
    light: LightType,
    potion: PotionType,
    proxy: Proxy,
    shout: ShoutType,
    icon: Icon,
    kind: BaseType,
)
    ensures
        BaseType::Food(food).spec_is_utility(),
        BaseType::Potion(potion).spec_is_utility(),
        BaseType::PotionProxy(proxy).spec_is_utility(),
        !BaseType::Spell(spell).spec_is_utility(),
        !BaseType::Scroll(spell).spec_is_utility(),
        !BaseType::Weapon(weapon).spec_is_utility(),
        !BaseType::Light(light).spec_is_utility(),
        !BaseType::Ammo(ammo).spec_is_utility(),
        !BaseType::Power.spec_is_utility(),
        !BaseType::Shout(shout).spec_is_utility(),
        !BaseType::HandToHand.spec_is_utility(),
        !BaseType::Equipset(icon).spec_is_utility(),
        !BaseType::Empty.spec_is_utility(),
        kind.spec_is_power() <==> (kind == BaseType::Power || kind is Shout),
{
}

} // verus!
