//! Items as the HUD hands them to the game side: a name, a form spec, a
//! legacy item kind, and the count and highlight state.

use vstd::prelude::*;

use super::tesitemkind::ItemKind;

verus! {

/// A HUD item handed to the game side.
#[derive(Debug, Clone)]
pub struct ItemData {
    /// Player-visible name as its underlying bytes.
    name_bytes: Vec<u8>,
    /// Whether the name bytes were valid UTF-8.
    name_is_utf8: bool,
    /// The name as UTF-8.
    name: String,
    /// A string that can be turned back into form data.
    form_string: String,
    /// What kind of item this is.
    kind: ItemKind,
    /// Whether this item needs both hands.
    two_handed: bool,
    /// Whether this item is shown with its count.
    has_count: bool,
    /// The count the player has.
    count: u32,
    /// Whether this item is drawn highlighted.
    highlighted: bool,
}

/// The value of an item.
pub struct ItemDataView {
    pub name_bytes: Seq<u8>,
    pub name_is_utf8: bool,
    pub name: Seq<char>,
    pub form_string: Seq<char>,
    pub kind: ItemKind,
    pub two_handed: bool,
    pub has_count: bool,
    pub count: u32,
    pub highlighted: bool,
}

impl View for ItemData {
    type V = ItemDataView;

    closed spec fn view(&self) -> ItemDataView {
        ItemDataView {
            name_bytes: self.name_bytes@,
            name_is_utf8: self.name_is_utf8,
            name: self.name@,
            form_string: self.form_string@,
            kind: self.kind,
            two_handed: self.two_handed,
            has_count: self.has_count,
            count: self.count,
            highlighted: self.highlighted,
        }
    }
}

impl Default for ItemData {
    fn default() -> (r: Self)
        ensures
            r@ == (ItemDataView {
                name_bytes: Seq::empty(),
                name_is_utf8: false,
                name: Seq::empty(),
                form_string: Seq::empty(),
                kind: ItemKind::NotFound,
                two_handed: false,
                has_count: false,
                count: 0,
                highlighted: false,
            }),
    {
        let r = ItemData {
            name_bytes: Vec::new(),
            name_is_utf8: false,
            name: String::new(),
            form_string: String::new(),
            kind: ItemKind::NotFound,
            two_handed: false,
            has_count: false,
            count: 0,
            highlighted: false,
        };
        assert(r@.name_bytes =~= Seq::<u8>::empty());
        r
    }
}

/// The bytes of a name as the game holds them: its UTF-8 encoding and a nul.
pub open spec fn name_bytes_of(name: Seq<char>) -> Seq<u8> {
    vstd::utf8::encode_utf8(name).push(0u8)
}

/// The value of an item made from a name.
pub open spec fn named_item(
    kind: ItemKind,
    two_handed: bool,
    has_count: bool,
    count: u32,
    name: Seq<char>,
    form_string: Seq<char>,
) -> ItemDataView {
    ItemDataView {
        name_bytes: name_bytes_of(name),
        name_is_utf8: true,
        name,
        form_string,
        kind,
        two_handed,
        has_count,
        count,
        highlighted: false,
    }
}

impl ItemData {
    /// An item with a name that is already text.
    pub fn new_with_name(
        icon_kind: ItemKind,
        two_handed: bool,
        has_count: bool,
        count: u32,
        name: String,
        form_string: &str,
    ) -> (r: Self)
        ensures
            r@ == named_item(icon_kind, two_handed, has_count, count, name@, form_string@),
    {
        let mut name_bytes: Vec<u8> = name.as_str().as_bytes_vec();
        name_bytes.push(0u8);
        ItemData {
            name,
            name_bytes,
            name_is_utf8: true,
            form_string: String::from_str(form_string),
            kind: icon_kind,
            two_handed,
            has_count,
            count,
            highlighted: false,
        }
    }

    /// The UTF-8 name of this item.
    pub fn name(&self) -> (r: String)
        ensures
            r@ == self@.name,
    {
        self.name.clone()
    }

    /// Whether the name bytes were valid UTF-8.
    pub fn name_is_utf8(&self) -> (r: bool)
        ensures
            r == self@.name_is_utf8,
    {
        self.name_is_utf8
    }

    /// The name as the bytes the game handed over.
    pub fn name_bytes(&self) -> (r: Vec<u8>)
        ensures
            r@ == self@.name_bytes,
    {
        self.name_bytes.clone()
    }

    /// Whether this item must be equipped with both hands.
    pub fn two_handed(&self) -> (r: bool)
        ensures
            r == self@.two_handed,
    {
        self.two_handed
    }

    /// Whether this item is shown with its count.
    pub fn has_count(&self) -> (r: bool)
        ensures
            r == self@.has_count,
    {
        self.has_count
    }

    /// How many of this item the player has.
    pub fn count(&self) -> (r: u32)
        ensures
            r == self@.count,
    {
        self.count
    }

    /// Update the count following an inventory change.
    pub fn set_count(&mut self, v: u32)
        ensures
            final(self)@ == (ItemDataView { count: v, ..old(self)@ }),
    {
        self.count = v;
    }

    /// This item's form spec, which names its mod file and form id.
    pub fn form_string(&self) -> (r: String)
        ensures
            r@ == self@.form_string,
    {
        self.form_string.clone()
    }

    /// What kind of item this is.
    pub fn kind(&self) -> (r: ItemKind)
        ensures
            r == self@.kind,
    {
        self.kind
    }

    /// Whether this item is drawn highlighted.
    pub fn highlighted(&self) -> (r: bool)
        ensures
            r == self@.highlighted,
    {
        self.highlighted
    }

    /// Set whether this item is drawn highlighted.
    pub fn set_highlighted(&mut self, is_shiny: bool)
        ensures
            final(self)@ == (ItemDataView { highlighted: is_shiny, ..old(self)@ }),
    {
        self.highlighted = is_shiny;
    }
}

/// The unarmed stand-in: bare hands.
pub fn hand2hand_itemdata() -> (r: Box<ItemData>)
    ensures
        r@ == named_item(ItemKind::HandToHand, false, false, 1, "Unarmed"@, "unarmed_proxy"@),
{
    Box::new(
        ItemData::new_with_name(
            ItemKind::HandToHand,
            false,
            false,
            1,
            String::from_str("Unarmed"),
            "unarmed_proxy",
        ),
    )
}

/// The stand-in for the best magicka potion the player carries.
pub fn make_magicka_proxy(count: u32) -> (r: ItemData)
    ensures
        r@ == named_item(ItemKind::PotionMagicka, false, true, count, "Best Magicka"@, "magicka_proxy"@),
{
    ItemData::new_with_name(
        ItemKind::PotionMagicka,
        false,
        true,
        count,
        String::from_str("Best Magicka"),
        "magicka_proxy",
    )
}

/// The stand-in for the best health potion the player carries.
pub fn make_health_proxy(count: u32) -> (r: ItemData)
    ensures
        r@ == named_item(ItemKind::PotionHealth, false, true, count, "Best Health"@, "health_proxy"@),
{
    ItemData::new_with_name(
        ItemKind::PotionHealth,
        false,
        true,
        count,
        String::from_str("Best Health"),
        "health_proxy",
    )
}

/// The stand-in for the best stamina potion the player carries.
pub fn make_stamina_proxy(count: u32) -> (r: ItemData)
    ensures
        r@ == named_item(ItemKind::PotionStamina, false, true, count, "Best Stamina"@, "stamina_proxy"@),
{
    ItemData::new_with_name(
        ItemKind::PotionStamina,
        false,
        true,
        count,
        String::from_str("Best Stamina"),
        "stamina_proxy",
    )
}

/// An empty item, drawn as an empty spot on the HUD.
pub fn empty_itemdata() -> (r: Box<ItemData>)
    ensures
        r@ == (ItemDataView {
            name_bytes: Seq::empty(),
            name_is_utf8: false,
            name: Seq::empty(),
            form_string: Seq::empty(),
            kind: ItemKind::NotFound,
            two_handed: false,
            has_count: false,
            count: 0,
            highlighted: false,
        }),
{
    Box::new(ItemData::default())
}

} // verus!
