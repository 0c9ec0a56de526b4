//! The controller's decisions: what the HUD shows in each slot, which hand
//! holds what, and what the game must do when keys are pressed, timers run
//! out, or equipment and inventory change. Each decision takes what the game
//! reports as arguments and answers with the effects the game must carry out.

use vstd::prelude::*;

use super::cycleentries::{differs_from, entry_views};
use super::cycleentries::{next_of, rotated};
use super::cycles::{skip_rotation, turned_to, CycleData};
use super::control::{MenuEventResponse, RequestedAction};
use super::keys::{CycleSlot, Hotkey, KeyState, KeyTracker, Modifier, TrackedKey};
use super::settings::{ActivationMethod, KeySettings, UnarmedMethod};
use crate::data::base::{BaseType, Proxy};
use crate::data::potion::PotionType;
use crate::data::IsHudItem;
use crate::plugin::{Action, HudElement, KeyEventResponse};
use crate::text::same_text;

verus! {

/// An item as the HUD shows it: its form spec, its kind and its count.
#[derive(Clone, Debug)]
pub struct ShownItem {
    pub form_string: String,
    pub kind: BaseType,
    pub count: u32,
}

/// The value of a shown item.
pub type ItemView = (Seq<char>, BaseType, u32);

impl View for ShownItem {
    type V = ItemView;

    open spec fn view(&self) -> ItemView {
        (self.form_string@, self.kind, self.count)
    }
}

/// The empty item: drawn as an empty slot.
pub open spec fn empty_view() -> ItemView {
    (Seq::empty(), BaseType::Empty, 0)
}

/// The bare-hands stand-in.
pub open spec fn unarmed_view() -> ItemView {
    ("unarmed_proxy"@, BaseType::HandToHand, 1)
}

impl ShownItem {
    /// An item classified from its category, keywords and grip; the name
    /// only helps the classification.
    pub fn from_keywords(
        category: crate::plugin::ItemCategory,
        keywords: Vec<String>,
        name: &str,
        form_string: String,
        count: u32,
        twohanded: bool,
    ) -> (r: ShownItem)
        ensures
            r.form_string == form_string,
            r.count == count,
            r.kind == BaseType::spec_classify(category, keywords@.map_values(|k: String| k@), twohanded),
    {
        let kind = BaseType::classify(name, category, keywords, twohanded);
        ShownItem { form_string, kind, count }
    }

    /// An item whose kind is already known.
    pub fn preclassified(form_string: String, count: u32, kind: BaseType) -> (r: ShownItem)
        ensures
            r.form_string == form_string,
            r.count == count,
            r.kind == kind,
    {
        ShownItem { form_string, kind, count }
    }

    /// The empty item.
    pub fn empty() -> (r: ShownItem)
        ensures
            r@ == empty_view(),
    {
        let r = ShownItem { form_string: String::new(), kind: BaseType::Empty, count: 0 };
        assert(r.form_string@ =~= Seq::<char>::empty());
        r
    }

    /// The bare-hands stand-in.
    pub fn unarmed() -> (r: ShownItem)
        ensures
            r@ == unarmed_view(),
    {
        ShownItem {
            form_string: String::from_str("unarmed_proxy"),
            kind: BaseType::HandToHand,
            count: 1,
        }
    }

    /// A copy of this item.
    pub fn duplicate(&self) -> (r: ShownItem)
        ensures
            r@ == self@,
    {
        ShownItem { form_string: self.form_string.clone(), kind: self.kind, count: self.count }
    }

    /// Whether two items are the same in every part.
    pub fn same_as(&self, other: &ShownItem) -> (r: bool)
        ensures
            r == (self@ == other@),
    {
        self.form_string == other.form_string && self.kind == other.kind && self.count
            == other.count
    }
}

/// What the game must carry out after a decision.
#[derive(Clone, Debug)]
pub enum Effect {
    /// Equip a weapon, spell, scroll, light or shield in a hand.
    EquipWeapon(String, Action),
    /// Put a piece of armor on or take it off.
    ToggleArmor(String),
    /// Equip ammunition.
    EquipAmmo(String),
    /// Equip a shout or power.
    EquipShout(String),
    /// Empty a slot.
    UnequipSlot(Action),
    /// Put on a piece of an equipment set.
    EquipArmor(String),
    /// Equip an item in a hand again after a two-handed item left it.
    ReequipHand(Action, String),
    /// Drink or eat an item.
    ConsumePotion(String),
    /// Drink the best health potion.
    ChooseHealthPotion,
    /// Drink the best magicka potion.
    ChooseMagickaPotion,
    /// Drink the best stamina potion.
    ChooseStaminaPotion,
    /// Start a timer that runs for the given milliseconds.
    StartTimer(Action, u32),
    /// Stop a timer.
    StopTimer(Action),
    /// Make the sound for a refused request.
    Honk,
    /// Show the HUD for a moment.
    ShowBriefly,
    /// Read the HUD layout again.
    RefreshLayout,
    /// Empty the armor slot with the given shift.
    UnequipArmorSlot(u8),
    /// Fade the HUD in (true) or out (false).
    StartFade(bool),
}

/// The value of an effect.
pub enum EffectView {
    EquipWeapon(Seq<char>, Action),
    ToggleArmor(Seq<char>),
    EquipAmmo(Seq<char>),
    EquipShout(Seq<char>),
    UnequipSlot(Action),
    EquipArmor(Seq<char>),
    ReequipHand(Action, Seq<char>),
    ConsumePotion(Seq<char>),
    ChooseHealthPotion,
    ChooseMagickaPotion,
    ChooseStaminaPotion,
    StartTimer(Action, u32),
    StopTimer(Action),
    Honk,
    ShowBriefly,
    RefreshLayout,
    UnequipArmorSlot(u8),
    StartFade(bool),
}

impl View for Effect {
    type V = EffectView;

    open spec fn view(&self) -> EffectView {
        match self {
            Effect::EquipWeapon(s, a) => EffectView::EquipWeapon(s@, *a),
            Effect::ToggleArmor(s) => EffectView::ToggleArmor(s@),
            Effect::EquipAmmo(s) => EffectView::EquipAmmo(s@),
            Effect::EquipShout(s) => EffectView::EquipShout(s@),
            Effect::UnequipSlot(a) => EffectView::UnequipSlot(*a),
            Effect::EquipArmor(s) => EffectView::EquipArmor(s@),
            Effect::ReequipHand(a, s) => EffectView::ReequipHand(*a, s@),
            Effect::ConsumePotion(s) => EffectView::ConsumePotion(s@),
            Effect::ChooseHealthPotion => EffectView::ChooseHealthPotion,
            Effect::ChooseMagickaPotion => EffectView::ChooseMagickaPotion,
            Effect::ChooseStaminaPotion => EffectView::ChooseStaminaPotion,
            Effect::StartTimer(a, ms) => EffectView::StartTimer(*a, *ms),
            Effect::StopTimer(a) => EffectView::StopTimer(*a),
            Effect::Honk => EffectView::Honk,
            Effect::ShowBriefly => EffectView::ShowBriefly,
            Effect::RefreshLayout => EffectView::RefreshLayout,
            Effect::UnequipArmorSlot(shift) => EffectView::UnequipArmorSlot(*shift),
            Effect::StartFade(visible) => EffectView::StartFade(*visible),
        }
    }
}

/// The values of a list of effects.
pub open spec fn effects_view(v: Seq<Effect>) -> Seq<EffectView> {
    v.map_values(|e: Effect| e@)
}

/// The effect that equips an item in a slot: weapons, spells, lights and
/// shields go to the hand, armor is toggled, ammunition equipped; nothing
/// for other kinds, or for slots other than the hands and the utility slot.
pub open spec fn equip_effect(item: ItemView, which: Action) -> Option<EffectView> {
    if !(which is Right || which is Left || which is Utility) {
        None
    } else if item.1.spec_is_magic() || item.1.spec_left_hand_ok() || item.1.spec_right_hand_ok() {
        Some(EffectView::EquipWeapon(item.0, which))
    } else if item.1 is Armor {
        Some(EffectView::ToggleArmor(item.0))
    } else if item.1 is Ammo {
        Some(EffectView::EquipAmmo(item.0))
    } else {
        None
    }
}

/// The values of an optional effect, as a list.
pub open spec fn opt_effects(e: Option<EffectView>) -> Seq<EffectView> {
    match e {
        Some(x) => seq![x],
        None => Seq::empty(),
    }
}

/// The effects that equip an item in a slot.
pub fn equip_item(item: &ShownItem, which: Action) -> (r: Vec<Effect>)
    ensures
        effects_view(r@) == opt_effects(equip_effect(item@, which)),
{
    let mut out: Vec<Effect> = Vec::new();
    if !matches!(which, Action::Right | Action::Left | Action::Utility) {
        assert(effects_view(out@) =~= Seq::<EffectView>::empty());
        return out;
    }
    let kind = &item.kind;
    if kind.is_magic() || kind.left_hand_ok() || kind.right_hand_ok() {
        out.push(Effect::EquipWeapon(item.form_string.clone(), which));
    } else if kind.is_armor() {
        out.push(Effect::ToggleArmor(item.form_string.clone()));
    } else if matches!(kind, BaseType::Ammo(_)) {
        out.push(Effect::EquipAmmo(item.form_string.clone()));
    }
    assert(effects_view(out@) =~= opt_effects(equip_effect(item@, which)));
    out
}

impl BaseType {
    /// Whether the item is a spell or a scroll.
    pub open spec fn spec_is_magic(self) -> bool {
        self is Spell || self is Scroll
    }
}

/// Labels for the cycles in messages to the player.
#[derive(Clone, Copy, Debug, PartialEq, Eq, Hash, Structural)]
pub enum CycleLabel {
    Powers,
    Utilities,
    LeftHand,
    RightHand,
    BothHands,
}

/// What favoriting or unfavoriting an item did to the cycles.
#[derive(Clone, Copy, Debug, PartialEq, Eq, Hash, Structural)]
pub enum FavoriteChange {
    Added(CycleLabel),
    Removed(CycleLabel),
}

/// A cycle with an entry added unless it already holds it.
pub open spec fn with_entry(s: Seq<Seq<char>>, f: Seq<char>) -> Seq<Seq<char>> {
    if s.contains(f) {
        s
    } else {
        s.push(f)
    }
}

/// A cycle without any entry equal to `f`.
pub open spec fn without_entry(s: Seq<Seq<char>>, f: Seq<char>) -> Seq<Seq<char>> {
    s.filter(differs_from(f))
}

/// The cycles a favorite change touches, as (utility, power, right, left).
/// Utility items and powers have their own cycles; a removed two-hander
/// leaves the right hand only; an added two-hander or scroll joins the right
/// hand only; added spells, and right-hand items the player has more than
/// one of, join both hands; other right-hand items join the right hand, and
/// anything else the left hand.
pub open spec fn favorite_targets(kind: BaseType, count: u32, is_favorite: bool) -> (bool, bool, bool, bool) {
    if kind.spec_is_utility() {
        (true, false, false, false)
    } else if kind.spec_is_power() {
        (false, true, false, false)
    } else if !is_favorite {
        if kind.spec_two_handed() {
            (false, false, true, false)
        } else {
            (false, false, true, true)
        }
    } else if kind.spec_two_handed() || kind is Scroll {
        (false, false, true, false)
    } else if kind is Spell || (kind.spec_right_hand_ok() && count > 1) {
        (false, false, true, true)
    } else if kind.spec_right_hand_ok() {
        (false, false, true, false)
    } else {
        (false, false, false, true)
    }
}

/// A cycle after a favorite change: touched cycles gain or lose the item.
pub open spec fn favorite_cycle(s: Seq<Seq<char>>, f: Seq<char>, touched: bool, is_favorite: bool) -> Seq<Seq<char>> {
    if !touched {
        s
    } else if is_favorite {
        with_entry(s, f)
    } else {
        without_entry(s, f)
    }
}

/// Whether a favorite change altered a touched cycle.
pub open spec fn favorite_changed(s: Seq<Seq<char>>, f: Seq<char>, touched: bool, is_favorite: bool) -> bool {
    touched && (if is_favorite {
        !s.contains(f)
    } else {
        s.contains(f)
    })
}

/// The label of what a favorite change did, if it changed anything.
pub open spec fn favorite_label(
    targets: (bool, bool, bool, bool),
    changed_utility: bool,
    changed_power: bool,
    changed_right: bool,
    changed_left: bool,
) -> Option<CycleLabel> {
    if targets.0 {
        if changed_utility {
            Some(CycleLabel::Utilities)
        } else {
            None
        }
    } else if targets.1 {
        if changed_power {
            Some(CycleLabel::Powers)
        } else {
            None
        }
    } else if changed_right && changed_left {
        Some(CycleLabel::BothHands)
    } else if changed_left {
        Some(CycleLabel::LeftHand)
    } else if changed_right {
        Some(CycleLabel::RightHand)
    } else {
        None
    }
}

/// The keyword an item gets in the game's menus after cycle changes.
#[derive(Clone, Copy, Debug, PartialEq, Eq, Hash, Structural)]
pub enum CycleKeyword {
    /// In its power or utility cycle.
    InCycle,
    /// In the right-hand cycle only.
    InCycleRight,
    /// In the left-hand cycle only.
    InCycleLeft,
    /// In both hand cycles.
    InCycleBothHands,
    /// In no cycle: any keyword is cleared.
    Cleared,
}

impl CycleKeyword {
    /// The name of the keyword in the game.
    pub fn keyword_name(&self) -> (r: &'static str)
        ensures
            r@ == match *self {
                CycleKeyword::InCycle => "InSoulsyCycle"@,
                CycleKeyword::InCycleRight => "InSoulsyCycleRight"@,
                CycleKeyword::InCycleLeft => "InSoulsyCycleLeft"@,
                CycleKeyword::InCycleBothHands => "InSoulsyCycleBothHands"@,
                CycleKeyword::Cleared => ""@,
            },
    {
        match self {
            CycleKeyword::InCycle => "InSoulsyCycle",
            CycleKeyword::InCycleRight => "InSoulsyCycleRight",
            CycleKeyword::InCycleLeft => "InSoulsyCycleLeft",
            CycleKeyword::InCycleBothHands => "InSoulsyCycleBothHands",
            CycleKeyword::Cleared => "",
        }
    }
}

/// The keyword an item should carry, given the cycles.
pub open spec fn keyword_for(cycles: CycleData, kind: BaseType, f: Seq<char>) -> CycleKeyword {
    if kind.spec_is_power() {
        if cycles.slot(CycleSlot::Power).contains(f) {
            CycleKeyword::InCycle
        } else {
            CycleKeyword::Cleared
        }
    } else if kind.spec_is_utility() {
        if cycles.slot(CycleSlot::Utility).contains(f) {
            CycleKeyword::InCycle
        } else {
            CycleKeyword::Cleared
        }
    } else {
        let in_left = cycles.slot(CycleSlot::Left).contains(f);
        let in_right = cycles.slot(CycleSlot::Right).contains(f);
        if in_left && in_right {
            CycleKeyword::InCycleBothHands
        } else if in_right {
            CycleKeyword::InCycleRight
        } else if in_left {
            CycleKeyword::InCycleLeft
        } else {
            CycleKeyword::Cleared
        }
    }
}

/// The keyword an item should carry after cycle changes, so the game's
/// menus can mark it.
pub fn assign_keyword(cycles: &CycleData, item: &ShownItem) -> (r: CycleKeyword)
    ensures
        r == keyword_for(*cycles, item.kind, item.form_string@),
{
    let f = item.form_string.as_str();
    if item.kind.is_power() {
        if cycles.includes(&CycleSlot::Power, f) {
            CycleKeyword::InCycle
        } else {
            CycleKeyword::Cleared
        }
    } else if item.kind.is_utility() {
        if cycles.includes(&CycleSlot::Utility, f) {
            CycleKeyword::InCycle
        } else {
            CycleKeyword::Cleared
        }
    } else {
        let in_left = cycles.includes(&CycleSlot::Left, f);
        let in_right = cycles.includes(&CycleSlot::Right, f);
        if in_left && in_right {
            CycleKeyword::InCycleBothHands
        } else if in_right {
            CycleKeyword::InCycleRight
        } else if in_left {
            CycleKeyword::InCycleLeft
        } else {
            CycleKeyword::Cleared
        }
    }
}

/// The player favorited or unfavorited an item. When favorites are linked
/// to the cycles, add it to or remove it from the cycles it suits, and say
/// what changed; nothing changes otherwise.
pub fn handle_favorite_event(
    cycles: &mut CycleData,
    is_favorite: bool,
    item: &ShownItem,
    link_to_favorites: bool,
) -> (r: Option<FavoriteChange>)
    ensures
        !link_to_favorites ==> r is None && final(cycles).same_as(*old(cycles)),
        link_to_favorites ==> ({
            let t = favorite_targets(item.kind, item.count, is_favorite);
            let f = item.form_string@;
            let label = favorite_label(
                t,
                favorite_changed(old(cycles).slot(CycleSlot::Utility), f, t.0, is_favorite),
                favorite_changed(old(cycles).slot(CycleSlot::Power), f, t.1, is_favorite),
                favorite_changed(old(cycles).slot(CycleSlot::Right), f, t.2, is_favorite),
                favorite_changed(old(cycles).slot(CycleSlot::Left), f, t.3, is_favorite),
            );
            &&& final(cycles).slot(CycleSlot::Utility) == favorite_cycle(
                old(cycles).slot(CycleSlot::Utility),
                f,
                t.0,
                is_favorite,
            )
            &&& final(cycles).slot(CycleSlot::Power) == favorite_cycle(
                old(cycles).slot(CycleSlot::Power),
                f,
                t.1,
                is_favorite,
            )
            &&& final(cycles).slot(CycleSlot::Right) == favorite_cycle(
                old(cycles).slot(CycleSlot::Right),
                f,
                t.2,
                is_favorite,
            )
            &&& final(cycles).slot(CycleSlot::Left) == favorite_cycle(
                old(cycles).slot(CycleSlot::Left),
                f,
                t.3,
                is_favorite,
            )
            &&& r == match label {
                Some(l) => Some(
                    if is_favorite {
                        FavoriteChange::Added(l)
                    } else {
                        FavoriteChange::Removed(l)
                    },
                ),
                None => None,
            }
        }),
        final(cycles).sets() == old(cycles).sets(),
        final(cycles).hud_visible == old(cycles).hud_visible,
        final(cycles).loaded == old(cycles).loaded,
{
    if !link_to_favorites {
        return None;
    }
    let f = item.form_string.as_str();
    let kind = &item.kind;
    let label = if !is_favorite {
        if kind.is_utility() {
            if cycles.remove_item(CycleSlot::Utility, f) {
                Some(CycleLabel::Utilities)
            } else {
                None
            }
        } else if kind.is_power() {
            if cycles.remove_item(CycleSlot::Power, f) {
                Some(CycleLabel::Powers)
            } else {
                None
            }
        } else if kind.two_handed() {
            if cycles.remove_item(CycleSlot::Right, f) {
                Some(CycleLabel::RightHand)
            } else {
                None
            }
        } else {
            let removed_right = cycles.remove_item(CycleSlot::Right, f);
            let removed_left = cycles.remove_item(CycleSlot::Left, f);
            if removed_right && removed_left {
                Some(CycleLabel::BothHands)
            } else if removed_left {
                Some(CycleLabel::LeftHand)
            } else if removed_right {
                Some(CycleLabel::RightHand)
            } else {
                None
            }
        }
    } else {
        if kind.is_utility() {
            if cycles.add_item(CycleSlot::Utility, f) {
                Some(CycleLabel::Utilities)
            } else {
                None
            }
        } else if kind.is_power() {
            if cycles.add_item(CycleSlot::Power, f) {
                Some(CycleLabel::Powers)
            } else {
                None
            }
        } else if kind.two_handed() || matches!(kind, BaseType::Scroll(_)) {
            if cycles.add_item(CycleSlot::Right, f) {
                Some(CycleLabel::RightHand)
            } else {
                None
            }
        } else if kind.is_spell() || (kind.right_hand_ok() && item.count > 1) {
            let added_right = cycles.add_item(CycleSlot::Right, f);
            let added_left = cycles.add_item(CycleSlot::Left, f);
            if added_right && added_left {
                Some(CycleLabel::BothHands)
            } else if added_left {
                Some(CycleLabel::LeftHand)
            } else if added_right {
                Some(CycleLabel::RightHand)
            } else {
                None
            }
        } else if kind.right_hand_ok() {
            if cycles.add_item(CycleSlot::Right, f) {
                Some(CycleLabel::RightHand)
            } else {
                None
            }
        } else if cycles.add_item(CycleSlot::Left, f) {
            Some(CycleLabel::LeftHand)
        } else {
            None
        }
    };
    match label {
        Some(l) => if is_favorite {
            Some(FavoriteChange::Added(l))
        } else {
            Some(FavoriteChange::Removed(l))
        },
        None => None,
    }
}

/// A cycle without `f`, with `f` added and then taken out again, is as it was.
proof fn lemma_add_then_remove(s: Seq<Seq<char>>, f: Seq<char>)
    requires
        !s.contains(f),
    ensures
        without_entry(with_entry(s, f), f) == s,
{
    reveal(Seq::filter);
    assert(s.push(f).drop_last() =~= s);
    lemma_remove_absent(s, f);
}

/// Filtering with a predicate that every entry meets keeps the sequence.
proof fn lemma_filter_keeps_all(s: Seq<Seq<char>>, p: spec_fn(Seq<char>) -> bool)
    requires
        forall|i: int| 0 <= i < s.len() ==> p(s[i]),
    ensures
        s.filter(p) == s,
    decreases s.len(),
{
    reveal(Seq::filter);
    if s.len() > 0 {
        lemma_filter_keeps_all(s.drop_last(), p);
        assert(s.drop_last().push(s.last()) =~= s);
    }
}

/// Favoriting an item that is in none of the cycles and then unfavoriting
/// it leaves every cycle as it was: unfavoriting clears at least the
/// cycles that favoriting filled.
pub proof fn lemma_favorite_then_unfavorite(
    utility: Seq<Seq<char>>,
    power: Seq<Seq<char>>,
    right: Seq<Seq<char>>,
    left: Seq<Seq<char>>,
    f: Seq<char>,
    kind: BaseType,
    count: u32,
)
    requires
        !utility.contains(f),
        !power.contains(f),
        !right.contains(f),
        !left.contains(f),
    ensures
        ({
            let on = favorite_targets(kind, count, true);
            let off = favorite_targets(kind, count, false);
            &&& favorite_cycle(favorite_cycle(utility, f, on.0, true), f, off.0, false) == utility
            &&& favorite_cycle(favorite_cycle(power, f, on.1, true), f, off.1, false) == power
            &&& favorite_cycle(favorite_cycle(right, f, on.2, true), f, off.2, false) == right
            &&& favorite_cycle(favorite_cycle(left, f, on.3, true), f, off.3, false) == left
        }),
{
    lemma_add_then_remove(utility, f);
    lemma_add_then_remove(power, f);
    lemma_add_then_remove(right, f);
    lemma_add_then_remove(left, f);
    lemma_remove_absent(utility, f);
    lemma_remove_absent(power, f);
    lemma_remove_absent(right, f);
    lemma_remove_absent(left, f);
}

/// Taking out an entry that a cycle does not hold leaves it as it was.
proof fn lemma_remove_absent(s: Seq<Seq<char>>, f: Seq<char>)
    requires
        !s.contains(f),
    ensures
        without_entry(s, f) == s,
{
    assert forall|i: int| 0 <= i < s.len() implies differs_from(f)(s[i]) by {
        if s[i] == f {
            assert(s.contains(f));
        }
    }
    lemma_filter_keeps_all(s, differs_from(f));
}

/// What each HUD slot shows.
#[derive(Clone, Debug)]
pub struct Visible {
    pub power: Option<ShownItem>,
    pub utility: Option<ShownItem>,
    pub left: Option<ShownItem>,
    pub right: Option<ShownItem>,
    pub ammo: Option<ShownItem>,
    pub equipset: Option<ShownItem>,
    pub not_drawn: Option<ShownItem>,
}

/// The value of an optional item.
pub open spec fn opt_item(o: Option<ShownItem>) -> Option<ItemView> {
    match o {
        Some(x) => Some(x@),
        None => None,
    }
}

/// A shown item with another count.
pub open spec fn recount(o: Option<ItemView>, count: u32) -> Option<ItemView> {
    match o {
        Some(x) => Some((x.0, x.1, count)),
        None => None,
    }
}

impl Visible {
    /// What a slot shows.
    pub open spec fn shown(self, e: HudElement) -> Option<ItemView> {
        match e {
            HudElement::Power => opt_item(self.power),
            HudElement::Utility => opt_item(self.utility),
            HudElement::Left => opt_item(self.left),
            HudElement::Right => opt_item(self.right),
            HudElement::Ammo => opt_item(self.ammo),
            HudElement::EquipSet => opt_item(self.equipset),
            HudElement::NotDrawn => opt_item(self.not_drawn),
        }
    }

    /// Nothing is shown.
    pub fn new() -> (r: Visible)
        ensures
            forall|e: HudElement| #[trigger] r.shown(e) is None,
    {
        Visible {
            power: None,
            utility: None,
            left: None,
            right: None,
            ammo: None,
            equipset: None,
            not_drawn: None,
        }
    }

    /// A copy of what a slot shows.
    pub fn get(&self, e: HudElement) -> (r: Option<ShownItem>)
        ensures
            opt_item(r) == self.shown(e),
    {
        let slot = match e {
            HudElement::Power => &self.power,
            HudElement::Utility => &self.utility,
            HudElement::Left => &self.left,
            HudElement::Right => &self.right,
            HudElement::Ammo => &self.ammo,
            HudElement::EquipSet => &self.equipset,
            HudElement::NotDrawn => &self.not_drawn,
        };
        match slot {
            Some(x) => Some(x.duplicate()),
            None => None,
        }
    }

    /// The form spec a slot shows, or the empty string.
    pub fn spec_in(&self, e: HudElement) -> (r: String)
        ensures
            r@ == match self.shown(e) {
                Some(x) => x.0,
                None => Seq::<char>::empty(),
            },
    {
        match self.get(e) {
            Some(x) => x.form_string,
            None => {
                let r = String::new();
                assert(r@ =~= Seq::<char>::empty());
                r
            },
        }
    }

    /// Set the count of the item a slot shows, if it shows one.
    pub fn set_count(&mut self, e: HudElement, count: u32)
        ensures
            final(self).shown(e) == recount(old(self).shown(e), count),
            forall|o: HudElement| o != e ==> #[trigger] final(self).shown(o) == old(self).shown(o),
    {
        let slot = match e {
            HudElement::Power => &mut self.power,
            HudElement::Utility => &mut self.utility,
            HudElement::Left => &mut self.left,
            HudElement::Right => &mut self.right,
            HudElement::Ammo => &mut self.ammo,
            HudElement::EquipSet => &mut self.equipset,
            HudElement::NotDrawn => &mut self.not_drawn,
        };
        match slot {
            Some(x) => {
                x.count = count;
            },
            None => {},
        }
    }

    /// Show an item in a slot; says whether it replaced a different item.
    pub fn update_slot(&mut self, e: HudElement, item: ShownItem) -> (r: bool)
        ensures
            r == match old(self).shown(e) {
                Some(x) => x != item@,
                None => false,
            },
            final(self).shown(e) == Some(item@),
            forall|o: HudElement| o != e ==> #[trigger] final(self).shown(o) == old(self).shown(o),
    {
        let slot = match e {
            HudElement::Power => &mut self.power,
            HudElement::Utility => &mut self.utility,
            HudElement::Left => &mut self.left,
            HudElement::Right => &mut self.right,
            HudElement::Ammo => &mut self.ammo,
            HudElement::EquipSet => &mut self.equipset,
            HudElement::NotDrawn => &mut self.not_drawn,
        };
        let changed = match slot {
            Some(x) => !x.same_as(&item),
            None => false,
        };
        *slot = Some(item);
        changed
    }
}

/// What the game reported about items, by form spec.
#[derive(Clone, Debug)]
pub struct ItemTable {
    pub items: Vec<ShownItem>,
}

/// The item a spec names: the first entry for it, or the empty item.
pub open spec fn item_for(items: Seq<ItemView>, spec: Seq<char>) -> ItemView
    decreases items.len(),
{
    if items.len() == 0 {
        empty_view()
    } else if items[0].0 == spec {
        items[0]
    } else {
        item_for(items.skip(1), spec)
    }
}

impl ItemTable {
    /// The values of the entries.
    pub open spec fn entries(self) -> Seq<ItemView> {
        self.items@.map_values(|e: ShownItem| e@)
    }

    /// The item a spec names.
    pub fn get(&self, spec: &str) -> (r: ShownItem)
        ensures
            r@ == item_for(self.entries(), spec@),
    {
        let ghost t = self.entries();
        let target = String::from_str(spec);
        let mut i: usize = 0;
        assert(t.skip(0) =~= t);
        while i < self.items.len()
            invariant
                i <= self.items@.len(),
                t == self.entries(),
                target@ == spec@,
                item_for(t, spec@) == item_for(t.skip(i as int), spec@),
            decreases self.items.len() - i,
        {
            assert(t.skip(i as int).skip(1) =~= t.skip(i + 1));
            assert(t.skip(i as int)[0] == self.items@[i as int]@);
            if self.items[i].form_string == target {
                return self.items[i].duplicate();
            }
            i += 1;
        }
        ShownItem::empty()
    }
}

/// The HUD controller: the cycles, what each slot shows, which items the
/// hands held before a two-handed item took both, the grip mode, and the
/// keys it has seen.
#[derive(Clone, Debug)]
pub struct Controller {
    pub cycles: CycleData,
    pub visible: Visible,
    pub two_hander_equipped: bool,
    pub left_hand_cached: String,
    pub right_hand_cached: String,
    pub cgo_alt_grip: bool,
    pub keys: KeyTracker,
}

/// The slot an unequipped item empties, if any: ammo, lights and powers
/// their own slot; otherwise a hand slot that shows the item while that
/// hand no longer holds it, the right hand first.
pub open spec fn unequip_target(
    visible: Visible,
    kind: BaseType,
    unequipped: Seq<char>,
    right: Seq<char>,
    left: Seq<char>,
) -> Option<HudElement> {
    if kind is Ammo {
        Some(HudElement::Ammo)
    } else if kind is Light {
        Some(HudElement::Left)
    } else if kind is Power || kind is Shout {
        Some(HudElement::Power)
    } else if visible.shown(HudElement::Right) matches Some(v) && right != unequipped && unequipped == v.0 {
        Some(HudElement::Right)
    } else if visible.shown(HudElement::Left) matches Some(v) && left != unequipped && unequipped == v.0 {
        Some(HudElement::Left)
    } else {
        None
    }
}

/// Only slot `e` changed, and it now shows `item`.
pub open spec fn only_slot_changed(before: Visible, after: Visible, e: HudElement, item: ItemView) -> bool {
    &&& after.shown(e) == Some(item)
    &&& forall|o: HudElement| o != e ==> #[trigger] after.shown(o) == before.shown(o)
}

/// Whether slot `e` shows an item with form spec `f`.
pub open spec fn shows(visible: Visible, e: HudElement, f: Seq<char>) -> bool {
    visible.shown(e) matches Some(v) && v.0 == f
}

/// The form spec slot `e` shows, or the empty text.
pub open spec fn shown_spec(visible: Visible, e: HudElement) -> Seq<char> {
    match visible.shown(e) {
        Some(x) => x.0,
        None => Seq::empty(),
    }
}

/// What an unequip does to the controller: only the slot it targets is
/// emptied, and the result says whether that slot showed an item before.
pub open spec fn unequip_outcome(
    before: Controller,
    after: Controller,
    r: bool,
    kind: BaseType,
    unequipped: Seq<char>,
    right: Seq<char>,
    left: Seq<char>,
) -> bool {
    &&& after.cycles == before.cycles
    &&& after.two_hander_equipped == before.two_hander_equipped
    &&& after.left_hand_cached == before.left_hand_cached
    &&& after.right_hand_cached == before.right_hand_cached
    &&& after.cgo_alt_grip == before.cgo_alt_grip
    &&& after.keys == before.keys
    &&& match unequip_target(before.visible, kind, unequipped, right, left) {
        Some(e) => {
            &&& r == (before.visible.shown(e) matches Some(x) && x != empty_view())
            &&& only_slot_changed(before.visible, after.visible, e, empty_view())
        },
        None => !r && after.visible == before.visible,
    }
}

/// The response for a handled key with a timer to start for an action.
pub open spec fn started(action: Action) -> KeyEventResponse {
    KeyEventResponse { handled: true, start_timer: action, stop_timer: Action::NoAction }
}

/// The response for a handled key with no timer to start or stop.
pub open spec fn just_handled() -> KeyEventResponse {
    KeyEventResponse { handled: true, start_timer: Action::NoAction, stop_timer: Action::NoAction }
}

/// The response for a key that was not handled.
pub open spec fn unhandled() -> KeyEventResponse {
    KeyEventResponse { handled: false, start_timer: Action::NoAction, stop_timer: Action::NoAction }
}

impl Controller {
    /// A controller with empty cycles and nothing shown.
    pub fn new() -> (r: Controller)
        ensures
            forall|s: CycleSlot| #[trigger] r.cycles.slot(s).len() == 0,
            r.cycles.sets().len() == 0,
            r.cycles.hud_visible,
            forall|e: HudElement| #[trigger] r.visible.shown(e) is None,
            !r.two_hander_equipped,
            r.left_hand_cached@.len() == 0,
            r.right_hand_cached@.len() == 0,
            !r.cgo_alt_grip,
            r.keys.keys@.len() == 0,
    {
        Controller {
            cycles: CycleData::default(),
            visible: Visible::new(),
            two_hander_equipped: false,
            left_hand_cached: String::new(),
            right_hand_cached: String::new(),
            cgo_alt_grip: false,
            keys: KeyTracker::new(),
        }
    }

    /// Whether an item counts as two-handed: under the alternative grip,
    /// one-handers take both hands and two-handers one.
    pub open spec fn spec_treat_as_two_handed(self, kind: BaseType) -> bool {
        self.cgo_alt_grip != kind.spec_two_handed()
    }

    /// Whether an item counts as two-handed under the current grip.
    pub fn treat_as_two_handed(&self, kind: &BaseType) -> (r: bool)
        ensures
            r == self.spec_treat_as_two_handed(*kind),
    {
        (self.cgo_alt_grip && !kind.two_handed()) || (!self.cgo_alt_grip && kind.two_handed())
    }

    /// An item left a slot: empty the HUD slot that showed it, if any. Ammo,
    /// lights and powers empty their own slot; otherwise a hand slot is
    /// emptied when it showed the item and that hand no longer holds it.
    /// Says whether a slot changed.
    pub fn handle_item_unequipped(
        &mut self,
        item: &ShownItem,
        unequipped_spec: &str,
        equipped_right: &str,
        equipped_left: &str,
    ) -> (r: bool)
        ensures
            unequip_outcome(*old(self), *final(self), r, item.kind, unequipped_spec@, equipped_right@, equipped_left@),
    {
        match item.kind {
            BaseType::Ammo(_) => {
                return self.visible.update_slot(HudElement::Ammo, ShownItem::empty());
            },
            BaseType::Light(_) => {
                return self.visible.update_slot(HudElement::Left, ShownItem::empty());
            },
            BaseType::Power | BaseType::Shout(_) => {
                return self.visible.update_slot(HudElement::Power, ShownItem::empty());
            },
            _ => {},
        }
        match self.visible.get(HudElement::Right) {
            Some(v) => {
                if !same_text(equipped_right, unequipped_spec) && same_text(
                    unequipped_spec,
                    v.form_string.as_str(),
                ) {
                    return self.visible.update_slot(HudElement::Right, ShownItem::empty());
                }
            },
            None => {},
        }
        match self.visible.get(HudElement::Left) {
            Some(v) => {
                if !same_text(equipped_left, unequipped_spec) && same_text(
                    unequipped_spec,
                    v.form_string.as_str(),
                ) {
                    return self.visible.update_slot(HudElement::Left, ShownItem::empty());
                }
            },
            None => {},
        }
        false
    }
}

/// Whether a power or utility key press would rotate an empty cycle, which
/// the rotation does not allow: the cycle is rotated unless the slot shows
/// an item the cycle does not hold.
pub open spec fn rotation_allowed(cycles: CycleData, visible: Visible, slot: CycleSlot, e: HudElement) -> bool {
    (visible.shown(e) matches Some(v) && !cycles.slot(slot).contains(v.0)) || cycles.slot(slot).len() > 0
}

/// The cycle after a power or utility key press: unchanged when the slot
/// shows an item the cycle does not hold, else rotated by one.
pub open spec fn cycle_after_press(cycles: CycleData, visible: Visible, slot: CycleSlot, e: HudElement) -> Seq<Seq<char>> {
    if visible.shown(e) matches Some(v) && !cycles.slot(slot).contains(v.0) {
        cycles.slot(slot)
    } else {
        super::cycleentries::rotated(cycles.slot(slot), 1)
    }
}

/// The utility effect of the item at the top of the utility cycle: poison
/// and food are consumed, the potion stand-ins pick the best potion, other
/// potions are drunk, armor toggled, ammunition equipped.
pub open spec fn utility_effect(item: ItemView) -> Option<EffectView> {
    if item.1 == BaseType::Potion(PotionType::Poison) || item.1 is Food {
        Some(EffectView::ConsumePotion(item.0))
    } else if item.0 == "health_proxy"@ {
        Some(EffectView::ChooseHealthPotion)
    } else if item.0 == "magicka_proxy"@ {
        Some(EffectView::ChooseMagickaPotion)
    } else if item.0 == "stamina_proxy"@ {
        Some(EffectView::ChooseStaminaPotion)
    } else if item.1 is Potion {
        Some(EffectView::ConsumePotion(item.0))
    } else if item.1 is Armor {
        Some(EffectView::ToggleArmor(item.0))
    } else if item.1 is Ammo {
        Some(EffectView::EquipAmmo(item.0))
    } else {
        None
    }
}

/// The next ammunition: the one after the equipped one in the list, which
/// runs from least to most damaging and wraps around; the last one when the
/// equipped ammunition is not in the list.
pub open spec fn next_ammo(equipped: Seq<char>, ammo: Seq<Seq<char>>) -> Seq<char> {
    if exists|i: int| 0 <= i < ammo.len() && ammo[i] == equipped {
        let i = choose|i: int|
            0 <= i < ammo.len() && ammo[i] == equipped && forall|j: int|
                0 <= j < i ==> ammo[j] != equipped;
        if i + 1 < ammo.len() {
            ammo[i + 1]
        } else {
            ammo[0]
        }
    } else {
        ammo.last()
    }
}

/// Switch to the next ammunition the player carries. With fewer than two
/// kinds there is nothing to switch to.
pub fn advance_ammo(equipped: &str, ammo: &Vec<String>) -> (r: (KeyEventResponse, Vec<Effect>))
    ensures
        ammo@.len() < 2 ==> r.0 == unhandled() && r.1@.len() == 0,
        ammo@.len() >= 2 ==> r.0 == just_handled() && effects_view(r.1@) == seq![
            EffectView::EquipAmmo(next_ammo(equipped@, ammo.deep_view())),
        ],
{
    let mut effects: Vec<Effect> = Vec::new();
    if ammo.len() < 2 {
        return (KeyEventResponse::default(), effects);
    }
    let ghost s = ammo.deep_view();
    let target = String::from_str(equipped);
    let mut i: usize = 0;
    while i < ammo.len()
        invariant
            i <= ammo@.len(),
            s == ammo.deep_view(),
            target@ == equipped@,
            ammo@.len() >= 2,
            effects@.len() == 0,
            forall|j: int| 0 <= j < i ==> s[j] != equipped@,
        decreases ammo.len() - i,
    {
        if ammo[i] == target {
            assert(s[i as int] == equipped@);
            let next = if i + 1 < ammo.len() {
                assert(s[i + 1] == ammo@[i + 1]@);
                ammo[i + 1].clone()
            } else {
                assert(s[0] == ammo@[0]@);
                ammo[0].clone()
            };
            proof {
                let k = choose|k: int|
                    0 <= k < s.len() && s[k] == equipped@ && forall|j: int|
                        0 <= j < k ==> s[j] != equipped@;
                assert(k == i) by {
                    if k < i {
                        assert(s[k] != equipped@);
                    } else if k > i {
                        assert(s[i as int] != equipped@);
                    }
                }
            }
            effects.push(Effect::EquipAmmo(next));
            assert(effects_view(effects@) =~= seq![EffectView::EquipAmmo(next_ammo(equipped@, s))]);
            return (KeyEventResponse::handled(), effects);
        }
        i += 1;
    }
    assert(!exists|k: int| 0 <= k < s.len() && s[k] == equipped@);
    assert(s.last() == ammo@[ammo.len() - 1]@);
    let last = ammo[ammo.len() - 1].clone();
    effects.push(Effect::EquipAmmo(last));
    assert(effects_view(effects@) =~= seq![EffectView::EquipAmmo(next_ammo(equipped@, s))]);
    (KeyEventResponse::handled(), effects)
}

impl Controller {
    /// Rotate the powers or utility cycle for a key press and show its new
    /// top; a slot showing an item the cycle does not hold goes back to the
    /// cycle's top instead. Says whether there was a top to show.
    fn advance_shown_cycle(&mut self, slot: CycleSlot, e: HudElement, table: &ItemTable) -> (r: bool)
        requires
            (slot is Power && e is Power) || (slot is Utility && e is Utility),
            rotation_allowed(old(self).cycles, old(self).visible, slot, e),
        ensures
            final(self).cycles.slot(slot) == cycle_after_press(old(self).cycles, old(self).visible, slot, e),
            final(self).cycles.same_but(old(self).cycles, slot),
            r == (final(self).cycles.slot(slot).len() > 0),
            r ==> final(self).visible.shown(e) == Some(item_for(table.entries(), final(self).cycles.slot(slot)[0])),
            !r ==> final(self).visible.shown(e) == old(self).visible.shown(e),
            forall|o: HudElement| o != e ==> #[trigger] final(self).visible.shown(o) == old(self).visible.shown(o),
            final(self).two_hander_equipped == old(self).two_hander_equipped,
            final(self).left_hand_cached == old(self).left_hand_cached,
            final(self).right_hand_cached == old(self).right_hand_cached,
            final(self).cgo_alt_grip == old(self).cgo_alt_grip,
            final(self).keys == old(self).keys,
    {
        let not_in_cycle = match self.visible.get(e) {
            Some(v) => !self.cycles.includes(&slot, v.form_string.as_str()),
            None => false,
        };
        let candidate = if not_in_cycle {
            self.cycles.get_top(&slot)
        } else {
            self.cycles.advance(&slot, 1)
        };
        match candidate {
            Some(next) => {
                let item = table.get(next.as_str());
                self.visible.update_slot(e, item);
                true
            },
            None => false,
        }
    }

    /// The powers key advances the powers cycle and starts the equip timer.
    pub fn advance_cycle_power(&mut self, table: &ItemTable) -> (r: KeyEventResponse)
        requires
            rotation_allowed(old(self).cycles, old(self).visible, CycleSlot::Power, HudElement::Power),
        ensures
            final(self).cycles.slot(CycleSlot::Power) == cycle_after_press(
                old(self).cycles,
                old(self).visible,
                CycleSlot::Power,
                HudElement::Power,
            ),
            final(self).cycles.same_but(old(self).cycles, CycleSlot::Power),
            final(self).cycles.slot(CycleSlot::Power).len() > 0 ==> r == started(Action::Power)
                && final(self).visible.shown(HudElement::Power) == Some(
                item_for(table.entries(), final(self).cycles.slot(CycleSlot::Power)[0]),
            ),
            final(self).cycles.slot(CycleSlot::Power).len() == 0 ==> r == just_handled()
                && final(self).visible.shown(HudElement::Power) == old(self).visible.shown(
                HudElement::Power,
            ),
            forall|o: HudElement| o != HudElement::Power ==> #[trigger] final(self).visible.shown(o) == old(self).visible.shown(o),
            final(self).two_hander_equipped == old(self).two_hander_equipped,
            final(self).left_hand_cached == old(self).left_hand_cached,
            final(self).right_hand_cached == old(self).right_hand_cached,
            final(self).cgo_alt_grip == old(self).cgo_alt_grip,
            final(self).keys == old(self).keys,
    {
        if self.advance_shown_cycle(CycleSlot::Power, HudElement::Power, table) {
            KeyEventResponse { handled: true, start_timer: Action::Power, stop_timer: Action::NoAction }
        } else {
            KeyEventResponse::handled()
        }
    }

    /// The utility key advances the utility cycle; no timer is started.
    pub fn advance_cycle_utilities(&mut self, table: &ItemTable) -> (r: KeyEventResponse)
        requires
            rotation_allowed(old(self).cycles, old(self).visible, CycleSlot::Utility, HudElement::Utility),
        ensures
            r == just_handled(),
            final(self).cycles.slot(CycleSlot::Utility) == cycle_after_press(
                old(self).cycles,
                old(self).visible,
                CycleSlot::Utility,
                HudElement::Utility,
            ),
            final(self).cycles.same_but(old(self).cycles, CycleSlot::Utility),
            final(self).cycles.slot(CycleSlot::Utility).len() > 0 ==> final(self).visible.shown(
                HudElement::Utility,
            ) == Some(item_for(table.entries(), final(self).cycles.slot(CycleSlot::Utility)[0])),
            final(self).cycles.slot(CycleSlot::Utility).len() == 0 ==> final(self).visible.shown(
                HudElement::Utility,
            ) == old(self).visible.shown(HudElement::Utility),
            forall|o: HudElement| o != HudElement::Utility ==> #[trigger] final(self).visible.shown(o) == old(self).visible.shown(o),
            final(self).two_hander_equipped == old(self).two_hander_equipped,
            final(self).left_hand_cached == old(self).left_hand_cached,
            final(self).right_hand_cached == old(self).right_hand_cached,
            final(self).cgo_alt_grip == old(self).cgo_alt_grip,
            final(self).keys == old(self).keys,
    {
        self.advance_shown_cycle(CycleSlot::Utility, HudElement::Utility, table);
        KeyEventResponse::handled()
    }

    /// Use the item at the top of the utility cycle; the utility timer is stopped.
    pub fn use_utility_item(&self, table: &ItemTable) -> (r: (KeyEventResponse, Vec<Effect>))
        ensures
            r.0 == (KeyEventResponse {
                handled: true,
                start_timer: Action::NoAction,
                stop_timer: Action::Utility,
            }),
            effects_view(r.1@) == match first_of_slot(self.cycles, CycleSlot::Utility) {
                Some(top) => opt_effects(utility_effect(item_for(table.entries(), top))),
                None => Seq::<EffectView>::empty(),
            },
    {
        let mut effects: Vec<Effect> = Vec::new();
        match self.cycles.get_top(&CycleSlot::Utility) {
            Some(spec) => {
                let item = table.get(spec.as_str());
                let f = item.form_string.as_str();
                if item.kind == BaseType::Potion(PotionType::Poison) || matches!(item.kind, BaseType::Food(_)) {
                    effects.push(Effect::ConsumePotion(item.form_string.clone()));
                } else if same_text(f, "health_proxy") {
                    effects.push(Effect::ChooseHealthPotion);
                } else if same_text(f, "magicka_proxy") {
                    effects.push(Effect::ChooseMagickaPotion);
                } else if same_text(f, "stamina_proxy") {
                    effects.push(Effect::ChooseStaminaPotion);
                } else if item.kind.is_potion() {
                    effects.push(Effect::ConsumePotion(item.form_string.clone()));
                } else if item.kind.is_armor() {
                    effects.push(Effect::ToggleArmor(item.form_string.clone()));
                } else if item.kind.is_ammo() {
                    effects.push(Effect::EquipAmmo(item.form_string.clone()));
                }
                assert(effects_view(effects@) =~= opt_effects(utility_effect(item@)));
            },
            None => {
                assert(effects_view(effects@) =~= Seq::<EffectView>::empty());
            },
        }
        (
            KeyEventResponse { handled: true, start_timer: Action::NoAction, stop_timer: Action::Utility },
            effects,
        )
    }
}

/// The top entry of a cycle, if any.
pub open spec fn first_of_slot(cycles: CycleData, slot: CycleSlot) -> Option<Seq<char>> {
    super::cycleentries::first_of(cycles.slot(slot))
}

/// The other hand.
pub open spec fn other_hand(which: CycleSlot) -> CycleSlot {
    if which is Left {
        CycleSlot::Right
    } else {
        CycleSlot::Left
    }
}

/// The HUD element of a hand.
pub open spec fn hand_element(which: CycleSlot) -> HudElement {
    if which is Left {
        HudElement::Left
    } else {
        HudElement::Right
    }
}

/// The action of a hand.
pub open spec fn hand_action(which: CycleSlot) -> Action {
    if which is Left {
        Action::Left
    } else {
        Action::Right
    }
}

/// What advancing a hand cycle does: the new hand cycles, what the two
/// hand slots show afterwards (nothing means unchanged), the response, and
/// whether to make the refusal sound.
pub struct HandAdvance {
    pub mine: Seq<Seq<char>>,
    pub other: Seq<Seq<char>>,
    pub show_mine: Option<ItemView>,
    pub show_other: Option<ItemView>,
    pub response: KeyEventResponse,
    pub honk: bool,
}

/// Whether the count of an item limits dual-wielding it: only one of it, and its count matters.
pub open spec fn single(item: ItemView) -> bool {
    item.1.spec_count_matters() && item.2 <= 1
}

/// The hands as values: the two hand cycles, what the hand slots show,
/// whether a two-hander is out, what each hand held before it, and whether
/// the alternative grip is on.
pub struct Hands {
    pub left: Seq<Seq<char>>,
    pub right: Seq<Seq<char>>,
    pub shown_left: Option<ItemView>,
    pub shown_right: Option<ItemView>,
    pub two_hander: bool,
    pub left_cached: Seq<char>,
    pub right_cached: Seq<char>,
    pub alt_grip: bool,
}

impl Hands {
    /// The cycle of a hand.
    pub open spec fn cycle(self, which: CycleSlot) -> Seq<Seq<char>> {
        if which is Left {
            self.left
        } else {
            self.right
        }
    }

    /// What the slot of a hand shows.
    pub open spec fn shown(self, which: CycleSlot) -> Option<ItemView> {
        if which is Left {
            self.shown_left
        } else {
            self.shown_right
        }
    }

    /// Whether an item of this kind counts as two-handed under the grip.
    pub open spec fn treats_as_two_handed(self, kind: BaseType) -> bool {
        self.alt_grip != kind.spec_two_handed()
    }
}

/// What advancing a hand cycle does, on the hands as values (see
/// `Controller::hand_advance`).
pub open spec fn hands_advance(h: Hands, which: CycleSlot, t: Seq<ItemView>) -> HandAdvance {
    let s = h.cycle(which);
    let os = h.cycle(other_hand(which));
    let go = started(hand_action(which));
    if h.two_hander {
        match next_of(s) {
            None => HandAdvance {
                mine: s,
                other: os,
                show_mine: None,
                show_other: None,
                response: just_handled(),
                honk: false,
            },
            Some(fs) => {
                let cand = item_for(t, fs);
                let cached = if which is Left {
                    h.right_cached
                } else {
                    h.left_cached
                };
                let rt = item_for(t, cached);
                if h.treats_as_two_handed(cand.1) || cached.len() == 0 {
                    HandAdvance {
                        mine: rotated(s, 1),
                        other: os,
                        show_mine: Some(cand),
                        show_other: None,
                        response: go,
                        honk: false,
                    }
                } else if cand.0 != rt.0 {
                    HandAdvance {
                        mine: rotated(s, 1),
                        other: if os.contains(rt.0) {
                            turned_to(os, rt.0)
                        } else {
                            os
                        },
                        show_mine: Some(cand),
                        show_other: Some(rt),
                        response: go,
                        honk: false,
                    }
                } else if !single(cand) {
                    HandAdvance {
                        mine: rotated(s, 1),
                        other: turned_to(os, rt.0),
                        show_mine: Some(cand),
                        show_other: Some(rt),
                        response: go,
                        honk: false,
                    }
                } else {
                    let (skipped, found) = skip_rotation(s, rt.0);
                    match found {
                        None => HandAdvance {
                            mine: skipped,
                            other: os,
                            show_mine: None,
                            show_other: None,
                            response: just_handled(),
                            honk: true,
                        },
                        Some(fs2) => {
                            let cand2 = item_for(t, fs2);
                            if h.treats_as_two_handed(cand2.1) {
                                HandAdvance {
                                    mine: skipped,
                                    other: os,
                                    show_mine: Some(cand2),
                                    show_other: None,
                                    response: go,
                                    honk: false,
                                }
                            } else {
                                HandAdvance {
                                    mine: skipped,
                                    other: turned_to(os, rt.0),
                                    show_mine: Some(cand2),
                                    show_other: Some(rt),
                                    response: go,
                                    honk: false,
                                }
                            }
                        },
                    }
                }
            },
        }
    } else {
        let (mine, cand): (Seq<Seq<char>>, Option<Seq<char>>) = match h.shown(other_hand(which)) {
            Some(oe) => if !single(oe) {
                (rotated(s, 1), super::cycleentries::first_of(rotated(s, 1)))
            } else {
                skip_rotation(s, oe.0)
            },
            None => (rotated(s, 1), super::cycleentries::first_of(rotated(s, 1))),
        };
        match cand {
            Some(x) => HandAdvance {
                mine,
                other: os,
                show_mine: Some(item_for(t, x)),
                show_other: None,
                response: go,
                honk: false,
            },
            None => HandAdvance {
                mine,
                other: os,
                show_mine: None,
                show_other: None,
                response: just_handled(),
                honk: false,
            },
        }
    }
}

impl Controller {
    /// The hands of the controller as values.
    pub open spec fn hands(self) -> Hands {
        Hands {
            left: self.cycles.slot(CycleSlot::Left),
            right: self.cycles.slot(CycleSlot::Right),
            shown_left: self.visible.shown(HudElement::Left),
            shown_right: self.visible.shown(HudElement::Right),
            two_hander: self.two_hander_equipped,
            left_cached: self.left_hand_cached@,
            right_cached: self.right_hand_cached@,
            alt_grip: self.cgo_alt_grip,
        }
    }
}

impl Controller {
    /// Whether advancing the hand cycle stays within what the rotation allows.
    pub open spec fn hand_advance_ok(self, which: CycleSlot) -> bool {
        ||| self.two_hander_equipped
        ||| self.cycles.slot(which).len() > 0
        ||| (self.visible.shown(hand_element(other_hand(which))) matches Some(oe) && single(oe))
    }

    /// What advancing a hand cycle does.
    ///
    /// With a two-hander equipped, the hand cycles to its next entry; a
    /// two-handed candidate is simply taken. Otherwise the other hand
    /// returns to what it held before the two-hander, unless it held nothing
    /// remembered. When both would hold the same single item, the cycling
    /// hand skips it; if nothing else is left, the request is refused.
    /// With one-handers equipped, the hand cycles to its next entry, skipping
    /// the item in the other hand when the player has only one of it.
    pub open spec fn hand_advance(self, which: CycleSlot, t: Seq<ItemView>) -> HandAdvance {
        hands_advance(self.hands(), which, t)
    }

    /// Show an item in a hand slot and start the equip timer for that hand.
    fn update_and_record(&mut self, which: CycleSlot, item: ShownItem) -> (r: KeyEventResponse)
        requires
            which is Left || which is Right,
        ensures
            r == started(hand_action(which)),
            final(self).visible.shown(hand_element(which)) == Some(item@),
            forall|o: HudElement| o != hand_element(which) ==> #[trigger] final(self).visible.shown(o) == old(self).visible.shown(o),
            final(self).cycles == old(self).cycles,
            final(self).two_hander_equipped == old(self).two_hander_equipped,
            final(self).left_hand_cached == old(self).left_hand_cached,
            final(self).right_hand_cached == old(self).right_hand_cached,
            final(self).cgo_alt_grip == old(self).cgo_alt_grip,
            final(self).keys == old(self).keys,
    {
        let (e, a) = match which {
            CycleSlot::Left => (HudElement::Left, Action::Left),
            _ => (HudElement::Right, Action::Right),
        };
        self.visible.update_slot(e, item);
        KeyEventResponse { handled: true, start_timer: a, stop_timer: Action::NoAction }
    }

    /// Advance the left or right hand cycle.
    pub fn advance_hand_cycle(&mut self, which: CycleSlot, table: &ItemTable) -> (r: (KeyEventResponse, Vec<Effect>))
        requires
            which is Left || which is Right,
            old(self).hand_advance_ok(which),
        ensures
            ({
                let plan = old(self).hand_advance(which, table.entries());
                &&& final(self).cycles.slot(which) == plan.mine
                &&& final(self).cycles.slot(other_hand(which)) == plan.other
                &&& final(self).cycles.slot(CycleSlot::Power) == old(self).cycles.slot(CycleSlot::Power)
                &&& final(self).cycles.slot(CycleSlot::Utility) == old(self).cycles.slot(CycleSlot::Utility)
                &&& final(self).visible.shown(hand_element(which)) == match plan.show_mine {
                    Some(x) => Some(x),
                    None => old(self).visible.shown(hand_element(which)),
                }
                &&& final(self).visible.shown(hand_element(other_hand(which))) == match plan.show_other {
                    Some(x) => Some(x),
                    None => old(self).visible.shown(hand_element(other_hand(which))),
                }
                &&& r.0 == plan.response
                &&& effects_view(r.1@) == if plan.honk {
                    seq![EffectView::Honk]
                } else {
                    Seq::<EffectView>::empty()
                }
            }),
            advance_outcome(*old(self), *final(self), effects_view(r.1@), which, table.entries()),
            forall|o: HudElement| o != HudElement::Left && o != HudElement::Right ==> #[trigger] final(self).visible.shown(o) == old(self).visible.shown(o),
            final(self).cycles.sets() == old(self).cycles.sets(),
            final(self).cycles.hud_visible == old(self).cycles.hud_visible,
            final(self).cycles.loaded == old(self).cycles.loaded,
            final(self).two_hander_equipped == old(self).two_hander_equipped,
            final(self).left_hand_cached == old(self).left_hand_cached,
            final(self).right_hand_cached == old(self).right_hand_cached,
            final(self).cgo_alt_grip == old(self).cgo_alt_grip,
            final(self).keys == old(self).keys,
    {
        let r = self.step_hand_cycle(which, table);
        proof {
            let plan = old(self).hand_advance(which, table.entries());
            let want = applied(old(self).hands(), which, plan);
            assert(self.hands().left == want.left);
            assert(self.hands().right == want.right);
            assert(self.hands().shown_left == want.shown_left);
            assert(self.hands().shown_right == want.shown_right);
        }
        r
    }

    /// Advance the left or right hand cycle, by its plan.
    fn step_hand_cycle(&mut self, which: CycleSlot, table: &ItemTable) -> (r: (KeyEventResponse, Vec<Effect>))
        requires
            which is Left || which is Right,
            old(self).hand_advance_ok(which),
        ensures
            ({
                let plan = old(self).hand_advance(which, table.entries());
                &&& final(self).cycles.slot(which) == plan.mine
                &&& final(self).cycles.slot(other_hand(which)) == plan.other
                &&& final(self).cycles.slot(CycleSlot::Power) == old(self).cycles.slot(CycleSlot::Power)
                &&& final(self).cycles.slot(CycleSlot::Utility) == old(self).cycles.slot(CycleSlot::Utility)
                &&& final(self).visible.shown(hand_element(which)) == match plan.show_mine {
                    Some(x) => Some(x),
                    None => old(self).visible.shown(hand_element(which)),
                }
                &&& final(self).visible.shown(hand_element(other_hand(which))) == match plan.show_other {
                    Some(x) => Some(x),
                    None => old(self).visible.shown(hand_element(other_hand(which))),
                }
                &&& r.0 == plan.response
                &&& effects_view(r.1@) == if plan.honk {
                    seq![EffectView::Honk]
                } else {
                    Seq::<EffectView>::empty()
                }
            }),
            forall|o: HudElement| o != HudElement::Left && o != HudElement::Right ==> #[trigger] final(self).visible.shown(o) == old(self).visible.shown(o),
            final(self).cycles.sets() == old(self).cycles.sets(),
            final(self).cycles.hud_visible == old(self).cycles.hud_visible,
            final(self).cycles.loaded == old(self).cycles.loaded,
            final(self).two_hander_equipped == old(self).two_hander_equipped,
            final(self).left_hand_cached == old(self).left_hand_cached,
            final(self).right_hand_cached == old(self).right_hand_cached,
            final(self).cgo_alt_grip == old(self).cgo_alt_grip,
            final(self).keys == old(self).keys,
    {
        let mut effects: Vec<Effect> = Vec::new();
        let (other_slot, other_e) = match which {
            CycleSlot::Left => (CycleSlot::Right, HudElement::Right),
            _ => (CycleSlot::Left, HudElement::Left),
        };
        if self.two_hander_equipped {
            let form_string = match self.cycles.peek_next(&which) {
                Some(f) => f,
                None => {
                    return (KeyEventResponse::handled(), effects);
                },
            };
            let candidate = table.get(form_string.as_str());
            let other_cached = match which {
                CycleSlot::Left => self.right_hand_cached.clone(),
                _ => self.left_hand_cached.clone(),
            };
            if self.treat_as_two_handed(&candidate.kind) || other_cached.unicode_len() == 0 {
                self.cycles.advance(&which, 1);
                let r = self.update_and_record(which, candidate);
                return (r, effects);
            }
            let return_to = table.get(other_cached.as_str());
            if candidate.form_string != return_to.form_string {
                self.cycles.advance(&which, 1);
                if self.cycles.includes(&other_slot, return_to.form_string.as_str()) {
                    self.visible.update_slot(other_e, return_to.duplicate());
                    self.cycles.turn_to(&other_slot, return_to.form_string.as_str());
                } else {
                    self.visible.update_slot(other_e, return_to.duplicate());
                }
                let r = self.update_and_record(which, candidate);
                return (r, effects);
            }
            if !candidate.kind.count_matters() || candidate.count > 1 {
                self.cycles.advance(&which, 1);
                self.visible.update_slot(other_e, return_to.duplicate());
                self.cycles.turn_to(&other_slot, return_to.form_string.as_str());
                let r = self.update_and_record(which, candidate);
                return (r, effects);
            }
            let next = match self.cycles.advance_skipping(&which, return_to.form_string.as_str()) {
                Some(f) => f,
                None => {
                    effects.push(Effect::Honk);
                    assert(effects_view(effects@) =~= seq![EffectView::Honk]);
                    return (KeyEventResponse::handled(), effects);
                },
            };
            let candidate = table.get(next.as_str());
            if self.treat_as_two_handed(&candidate.kind) {
                let r = self.update_and_record(which, candidate);
                (r, effects)
            } else {
                self.visible.update_slot(other_e, return_to.duplicate());
                self.cycles.turn_to(&other_slot, return_to.form_string.as_str());
                let r = self.update_and_record(which, candidate);
                (r, effects)
            }
        } else {
            let maybe_candidate = match self.visible.get(other_e) {
                Some(other_equipped) => {
                    if !other_equipped.kind.count_matters() || other_equipped.count > 1 {
                        self.cycles.advance(&which, 1)
                    } else {
                        self.cycles.advance_skipping(&which, other_equipped.form_string.as_str())
                    }
                },
                None => self.cycles.advance(&which, 1),
            };
            match maybe_candidate {
                Some(candidate) => {
                    let item = table.get(candidate.as_str());
                    let r = self.update_and_record(which, item);
                    (r, effects)
                },
                None => (KeyEventResponse::handled(), effects),
            }
        }
    }
}

/// The element that shows the item of an action; anything else is the ammo element.
pub open spec fn action_element(a: Action) -> HudElement {
    match a {
        Action::Power => HudElement::Power,
        Action::Utility => HudElement::Utility,
        Action::Left => HudElement::Left,
        Action::Right => HudElement::Right,
        _ => HudElement::Ammo,
    }
}

/// The refusal sound, when asked for.
pub open spec fn honk_if(honk: bool) -> Seq<EffectView> {
    if honk {
        seq![EffectView::Honk]
    } else {
        Seq::<EffectView>::empty()
    }
}

/// What advancing hand `which` did, from `before` to `after` with effects
/// `fx`: the hands follow the plan (see `hand_advance`), the other cycles,
/// the sets and the other slots stay, and the only possible effect is the
/// refusal sound.
pub open spec fn advance_outcome(
    before: Controller,
    after: Controller,
    fx: Seq<EffectView>,
    which: CycleSlot,
    t: Seq<ItemView>,
) -> bool {
    let plan = before.hand_advance(which, t);
    &&& after.hands() == applied(before.hands(), which, plan)
    &&& after.cycles.slot(CycleSlot::Power) == before.cycles.slot(CycleSlot::Power)
    &&& after.cycles.slot(CycleSlot::Utility) == before.cycles.slot(CycleSlot::Utility)
    &&& after.cycles.sets() == before.cycles.sets()
    &&& forall|o: HudElement| o != HudElement::Left && o != HudElement::Right ==> #[trigger] after.visible.shown(o)
        == before.visible.shown(o)
    &&& fx == honk_if(plan.honk)
}

/// What dual-wielding the item `equipped` from the hand `action` names did,
/// from slots `before` to `after` with effects `fx`: bare hands empty the
/// other hand and show there, an item for either hand is equipped in the
/// other hand, anything else changes nothing.
pub open spec fn match_outcome(
    before: Visible,
    after: Visible,
    fx: Seq<EffectView>,
    action: Action,
    equipped: Seq<char>,
    t: Seq<ItemView>,
) -> bool {
    let other = if action is Left {
        Action::Right
    } else {
        Action::Left
    };
    let item = item_for(t, equipped);
    let both = item.1.spec_left_hand_ok() && item.1.spec_right_hand_ok();
    &&& both && item.0 == "unarmed_proxy"@ ==> fx == seq![EffectView::UnequipSlot(other)] && after.shown(
        action_element(other),
    ) == Some(item) && forall|o: HudElement| o != action_element(other) ==> #[trigger] after.shown(o)
        == before.shown(o)
    &&& both && item.0 != "unarmed_proxy"@ ==> fx == opt_effects(equip_effect(item, other)) && after == before
    &&& !both ==> fx.len() == 0 && after == before
}

/// The response that stops the timer of an action.
pub open spec fn stopped(action: Action) -> KeyEventResponse {
    KeyEventResponse { handled: true, start_timer: Action::NoAction, stop_timer: action }
}

impl Controller {
    /// Dual-wield the item in the hand `action` names, when it can go in
    /// either hand: bare hands empty the other hand, anything else is
    /// equipped there. The timer of the hand is stopped either way.
    pub fn match_hands(&mut self, action: Action, equipped: &str, table: &ItemTable) -> (r: (KeyEventResponse, Vec<Effect>))
        requires
            action is Left || action is Right,
        ensures
            ({
                let other = if action is Left {
                    Action::Right
                } else {
                    Action::Left
                };
                let item = item_for(table.entries(), equipped@);
                let both = item.1.spec_left_hand_ok() && item.1.spec_right_hand_ok();
                &&& r.0 == stopped(action)
                &&& both && item.0 == "unarmed_proxy"@ ==> effects_view(r.1@) == seq![
                    EffectView::UnequipSlot(other),
                ] && final(self).visible.shown(action_element(other)) == Some(item) && forall|
                    o: HudElement,
                | o != action_element(other) ==> #[trigger] final(self).visible.shown(o) == old(self).visible.shown(o)
                &&& both && item.0 != "unarmed_proxy"@ ==> effects_view(r.1@) == opt_effects(
                    equip_effect(item, other),
                ) && final(self).visible == old(self).visible
                &&& !both ==> r.1@.len() == 0 && final(self).visible == old(self).visible
            }),
            match_outcome(old(self).visible, final(self).visible, effects_view(r.1@), action, equipped@, table.entries()),
            final(self).cycles == old(self).cycles,
            final(self).two_hander_equipped == old(self).two_hander_equipped,
            final(self).left_hand_cached == old(self).left_hand_cached,
            final(self).right_hand_cached == old(self).right_hand_cached,
            final(self).cgo_alt_grip == old(self).cgo_alt_grip,
            final(self).keys == old(self).keys,
    {
        let (other, other_e) = match action {
            Action::Left => (Action::Right, HudElement::Right),
            _ => (Action::Left, HudElement::Left),
        };
        let item = table.get(equipped);
        let response = KeyEventResponse { handled: true, start_timer: Action::NoAction, stop_timer: action };
        if item.kind.left_hand_ok() && item.kind.right_hand_ok() {
            if same_text(item.form_string.as_str(), "unarmed_proxy") {
                let mut effects: Vec<Effect> = Vec::new();
                effects.push(Effect::UnequipSlot(other));
                self.visible.update_slot(other_e, item);
                assert(effects_view(effects@) =~= seq![EffectView::UnequipSlot(other)]);
                (response, effects)
            } else {
                (response, equip_item(&item, other))
            }
        } else {
            (response, Vec::new())
        }
    }

    /// Do what the player asked of a hand: empty it, advance its cycle,
    /// switch ammunition, or dual-wield.
    pub fn do_hand_action(
        &mut self,
        requested: RequestedAction,
        slot: CycleSlot,
        equipped: &str,
        equipped_ammo: &str,
        ammo: &Vec<String>,
        table: &ItemTable,
    ) -> (r: (KeyEventResponse, Vec<Effect>))
        requires
            slot is Left || slot is Right,
            requested is Advance ==> old(self).hand_advance_ok(slot),
        ensures
            requested is Unequip ==> ({
                &&& r.0 == stopped(hand_action(slot))
                &&& effects_view(r.1@) == seq![EffectView::UnequipSlot(hand_action(slot))]
                &&& final(self).visible.shown(hand_element(slot)) == Some(unarmed_view())
                &&& forall|o: HudElement| o != hand_element(slot) ==> #[trigger] final(self).visible.shown(o)
                    == old(self).visible.shown(o)
                &&& final(self).cycles.slot(slot) == turned_to(old(self).cycles.slot(slot), "unarmed_proxy"@)
                &&& final(self).cycles.same_but(old(self).cycles, slot)
            }),
            requested is Advance ==> ({
                let plan = old(self).hand_advance(slot, table.entries());
                &&& final(self).cycles.slot(slot) == plan.mine
                &&& final(self).cycles.slot(other_hand(slot)) == plan.other
                &&& r.0 == plan.response
                &&& advance_outcome(*old(self), *final(self), effects_view(r.1@), slot, table.entries())
            }),
            requested is AdvanceAmmo ==> final(self).visible == old(self).visible && final(self).cycles == old(self).cycles && (
                if ammo@.len() < 2 {
                    r.0 == unhandled() && r.1@.len() == 0
                } else {
                    r.0 == just_handled() && effects_view(r.1@) == seq![
                        EffectView::EquipAmmo(next_ammo(equipped_ammo@, ammo.deep_view())),
                    ]
                }),
            requested is Match ==> r.0 == stopped(hand_action(slot)) && final(self).cycles == old(self).cycles
                && match_outcome(
                old(self).visible,
                final(self).visible,
                effects_view(r.1@),
                hand_action(slot),
                equipped@,
                table.entries(),
            ),
            (requested is Consume || requested is NoAction) ==> r.0 == unhandled() && r.1@.len() == 0
                && final(self).visible == old(self).visible && final(self).cycles == old(self).cycles,
            final(self).two_hander_equipped == old(self).two_hander_equipped,
            final(self).left_hand_cached == old(self).left_hand_cached,
            final(self).right_hand_cached == old(self).right_hand_cached,
            final(self).cgo_alt_grip == old(self).cgo_alt_grip,
            final(self).keys == old(self).keys,
    {
        let (hand, e) = match slot {
            CycleSlot::Left => (Action::Left, HudElement::Left),
            _ => (Action::Right, HudElement::Right),
        };
        match requested {
            RequestedAction::Unequip => {
                let mut effects: Vec<Effect> = Vec::new();
                effects.push(Effect::UnequipSlot(hand));
                self.visible.update_slot(e, ShownItem::unarmed());
                self.cycles.turn_to(&slot, "unarmed_proxy");
                assert(effects_view(effects@) =~= seq![EffectView::UnequipSlot(hand)]);
                (KeyEventResponse { handled: true, start_timer: Action::NoAction, stop_timer: hand }, effects)
            },
            RequestedAction::Advance => self.advance_hand_cycle(slot, table),
            RequestedAction::AdvanceAmmo => advance_ammo(equipped_ammo, ammo),
            RequestedAction::Match => self.match_hands(hand, equipped, table),
            _ => (KeyEventResponse::default(), Vec::new()),
        }
    }

    /// When the equip delay of a slot runs out, equip what the slot shows.
    ///
    /// A key still held means the player is mid-press, so nothing happens.
    /// The equipset timer equips the current equipset. An empty slot is
    /// emptied in the game too; bare hands empty the hand; the powers slot
    /// equips its shout. Anything else is equipped in the slot, and a
    /// one-handed item is remembered as what the hand holds.
    pub fn timer_expired(
        &mut self,
        which: Action,
        key_pressed: bool,
        unequip_empty: bool,
        table: &ItemTable,
    ) -> (r: Vec<Effect>)
        requires
            !(which is LongPressLeft || which is LongPressRight || which is LongPressPower
                || which is LongPressUtility),
        ensures
            final(self).cycles == old(self).cycles,
            final(self).two_hander_equipped == old(self).two_hander_equipped,
            final(self).cgo_alt_grip == old(self).cgo_alt_grip,
            final(self).keys == old(self).keys,
            key_pressed ==> r@.len() == 0 && final(self).visible == old(self).visible
                && final(self).left_hand_cached == old(self).left_hand_cached
                && final(self).right_hand_cached == old(self).right_hand_cached,
            !key_pressed && which is Equipment ==> final(self).left_hand_cached == old(self).left_hand_cached
                && final(self).right_hand_cached == old(self).right_hand_cached && effects_view(r@)
                == set_equip_effects(old(self).cycles, unequip_empty) && set_shown(old(self).visible, final(self).visible, old(self).cycles),
            !key_pressed && !(which is Equipment) ==> timer_outcome(*old(self), *final(self), effects_view(r@), which),
    {
        let mut effects: Vec<Effect> = Vec::new();
        if key_pressed {
            return effects;
        }
        if matches!(which, Action::Equipment) {
            return self.equip_selected_set(unequip_empty);
        }
        let e = super::keys::element_for_action(which);
        let item = match self.visible.get(e) {
            Some(item) => item,
            None => {
                effects.push(Effect::UnequipSlot(which));
                assert(effects_view(effects@) =~= seq![EffectView::UnequipSlot(which)]);
                return effects;
            },
        };
        if matches!(item.kind, BaseType::HandToHand) {
            if matches!(which, Action::Left) {
                self.left_hand_cached = String::from_str("unarmed_proxy");
            } else {
                self.right_hand_cached = String::from_str("unarmed_proxy");
            }
            effects.push(Effect::UnequipSlot(which));
            assert(effects_view(effects@) =~= seq![EffectView::UnequipSlot(which)]);
            return effects;
        }
        if matches!(which, Action::Power) {
            effects.push(Effect::EquipShout(item.form_string.clone()));
            assert(effects_view(effects@) =~= seq![EffectView::EquipShout(item@.0)]);
            return effects;
        }
        if !item.kind.two_handed() {
            if matches!(which, Action::Left) {
                self.left_hand_cached = item.form_string.clone();
            } else {
                self.right_hand_cached = item.form_string.clone();
            }
        }
        equip_item(&item, which)
    }

    /// Equip the current equipset: when `unequip_empty` is set, the armor
    /// slots it leaves empty are emptied first; then each of its items is
    /// put on, and the equipset slot shows the set.
    pub fn equip_selected_set(&mut self, unequip_empty: bool) -> (r: Vec<Effect>)
        ensures
            effects_view(r@) == set_equip_effects(old(self).cycles, unequip_empty),
            old(self).cycles.sets().len() > 0 ==> final(self).visible.shown(HudElement::EquipSet) == Some(
                equipset_item(old(self).cycles.sets()[0].0),
            ),
            forall|o: HudElement| o != HudElement::EquipSet ==> #[trigger] final(self).visible.shown(o) == old(self).visible.shown(o),
            old(self).cycles.sets().len() == 0 ==> final(self).visible == old(self).visible,
            final(self).cycles == old(self).cycles,
            final(self).two_hander_equipped == old(self).two_hander_equipped,
            final(self).left_hand_cached == old(self).left_hand_cached,
            final(self).right_hand_cached == old(self).right_hand_cached,
            final(self).cgo_alt_grip == old(self).cgo_alt_grip,
            final(self).keys == old(self).keys,
    {
        let mut effects: Vec<Effect> = Vec::new();
        let set = match self.cycles.get_top_equipset() {
            Some(set) => set,
            None => {
                assert(effects_view(effects@) =~= Seq::<EffectView>::empty());
                return effects;
            },
        };
        let ghost lead: Seq<EffectView> = if unequip_empty {
            set@.3.map_values(|shift: u8| EffectView::UnequipArmorSlot(shift))
        } else {
            Seq::empty()
        };
        if unequip_empty {
            let slots = set.empty_slots();
            let mut k: usize = 0;
            while k < slots.len()
                invariant
                    k <= slots@.len(),
                    slots@ == set@.3,
                    effects_view(effects@) =~= slots@.take(k as int).map_values(
                        |shift: u8| EffectView::UnequipArmorSlot(shift),
                    ),
                decreases slots.len() - k,
            {
                let ghost before = effects_view(effects@);
                effects.push(Effect::UnequipArmorSlot(slots[k]));
                assert(effects_view(effects@) =~= before.push(EffectView::UnequipArmorSlot(slots@[k as int])));
                k += 1;
            }
            assert(slots@.take(slots@.len() as int) =~= slots@);
        }
        assert(effects_view(effects@) =~= lead);
        let items = set.item_specs();
        let mut i: usize = 0;
        while i < items.len()
            invariant
                i <= items@.len(),
                items.deep_view() == set@.2,
                effects_view(effects@) =~= lead + items.deep_view().take(i as int).map_values(
                    |f: Seq<char>| EffectView::EquipArmor(f),
                ),
            decreases items.len() - i,
        {
            let ghost before = effects_view(effects@);
            effects.push(Effect::EquipArmor(items[i].clone()));
            assert(effects_view(effects@) =~= before.push(EffectView::EquipArmor(items@[i as int]@)));
            i += 1;
        }
        let mut form_string = String::from_str("equipset_");
        let id_text = super::cycleentries::u32_to_decimal(set.id());
        form_string.append(id_text.as_str());
        let shown = ShownItem {
            form_string,
            kind: BaseType::Equipset(crate::images::icons::Icon::ArmorHeavy),
            count: 1,
        };
        self.visible.update_slot(HudElement::EquipSet, shown);
        effects
    }
}

/// The item the equipset slot shows for the equipset with the given id.
pub open spec fn equipset_item(id: u32) -> ItemView {
    (
        "equipset_"@ + super::cycleentries::decimal(id as nat),
        BaseType::Equipset(crate::images::icons::Icon::ArmorHeavy),
        1,
    )
}

/// The effects that equip the current equipset: when the setting to empty
/// slots is on, first each armor slot the set leaves empty is emptied; then
/// each of its items is put on.
pub open spec fn set_equip_effects(cycles: CycleData, unequip_empty: bool) -> Seq<EffectView> {
    if cycles.sets().len() > 0 {
        (if unequip_empty {
            cycles.sets()[0].3.map_values(|shift: u8| EffectView::UnequipArmorSlot(shift))
        } else {
            Seq::empty()
        }) + cycles.sets()[0].2.map_values(|f: Seq<char>| EffectView::EquipArmor(f))
    } else {
        Seq::empty()
    }
}

/// The slots after the current equipset was equipped: the equipset slot
/// shows the set, when there is one; the other slots stay.
pub open spec fn set_shown(before: Visible, after: Visible, cycles: CycleData) -> bool {
    &&& cycles.sets().len() > 0 ==> after.shown(HudElement::EquipSet) == Some(equipset_item(cycles.sets()[0].0))
    &&& cycles.sets().len() == 0 ==> after == before
    &&& forall|o: HudElement| o != HudElement::EquipSet ==> #[trigger] after.shown(o) == before.shown(o)
}

/// The label of the cycle an action toggles in.
pub open spec fn action_label(action: Action) -> CycleLabel {
    match action {
        Action::Power => CycleLabel::Powers,
        Action::Left => CycleLabel::LeftHand,
        Action::Right => CycleLabel::RightHand,
        _ => CycleLabel::Utilities,
    }
}

/// What a hand goes back to when a two-hander leaves: the item it held
/// before, when one is remembered (bare hands empty it), else the top of its
/// cycle, which is remembered from then on. The result is what the slot
/// shows, the effects, and what the hand remembers afterwards.
pub open spec fn hand_return(
    cached: Seq<char>,
    cycle: Seq<Seq<char>>,
    hand: Action,
    t: Seq<ItemView>,
) -> (Option<ItemView>, Seq<EffectView>, Seq<char>) {
    if cached.len() > 0 {
        if cached == "unarmed_proxy"@ {
            (Some(unarmed_view()), seq![EffectView::UnequipSlot(hand)], cached)
        } else {
            (Some(item_for(t, cached)), seq![EffectView::ReequipHand(hand, cached)], cached)
        }
    } else if cycle.len() > 0 {
        (Some(item_for(t, cycle[0])), seq![EffectView::ReequipHand(hand, cycle[0])], cycle[0])
    } else {
        (None, Seq::empty(), cached)
    }
}

impl Controller {
    /// The remembered item of a hand.
    pub open spec fn cached(self, hand: Action) -> Seq<char> {
        if hand is Left {
            self.left_hand_cached@
        } else {
            self.right_hand_cached@
        }
    }

    /// Put back what a hand held before a two-hander took both hands.
    pub fn return_hand(&mut self, hand: Action, table: &ItemTable) -> (r: Vec<Effect>)
        requires
            hand is Left || hand is Right,
        ensures
            ({
                let cycle = if hand is Left {
                    old(self).cycles.slot(CycleSlot::Left)
                } else {
                    old(self).cycles.slot(CycleSlot::Right)
                };
                let (show, effects, cached) = hand_return(old(self).cached(hand), cycle, hand, table.entries());
                &&& effects_view(r@) == effects
                &&& final(self).cached(hand) == cached
                &&& final(self).visible.shown(action_element(hand)) == match show {
                    Some(x) => Some(x),
                    None => old(self).visible.shown(action_element(hand)),
                }
            }),
            forall|o: HudElement| o != action_element(hand) ==> #[trigger] final(self).visible.shown(o) == old(self).visible.shown(o),
            hand is Left ==> final(self).right_hand_cached == old(self).right_hand_cached,
            hand is Right ==> final(self).left_hand_cached == old(self).left_hand_cached,
            final(self).cycles == old(self).cycles,
            final(self).two_hander_equipped == old(self).two_hander_equipped,
            final(self).cgo_alt_grip == old(self).cgo_alt_grip,
            final(self).keys == old(self).keys,
    {
        let mut effects: Vec<Effect> = Vec::new();
        let (slot, e) = match hand {
            Action::Left => (CycleSlot::Left, HudElement::Left),
            _ => (CycleSlot::Right, HudElement::Right),
        };
        let cached = match hand {
            Action::Left => self.left_hand_cached.clone(),
            _ => self.right_hand_cached.clone(),
        };
        if cached.unicode_len() > 0 {
            if same_text(cached.as_str(), "unarmed_proxy") {
                effects.push(Effect::UnequipSlot(hand));
                self.visible.update_slot(e, ShownItem::unarmed());
                assert(effects_view(effects@) =~= seq![EffectView::UnequipSlot(hand)]);
            } else {
                let item = table.get(cached.as_str());
                self.visible.update_slot(e, item);
                let ghost c = cached@;
                effects.push(Effect::ReequipHand(hand, cached));
                assert(effects_view(effects@) =~= seq![EffectView::ReequipHand(hand, c)]);
            }
        } else {
            match self.cycles.get_top(&slot) {
                Some(next) => {
                    match hand {
                        Action::Left => {
                            self.left_hand_cached = next.clone();
                        },
                        _ => {
                            self.right_hand_cached = next.clone();
                        },
                    }
                    let item = table.get(next.as_str());
                    self.visible.update_slot(e, item);
                    let ghost n = next@;
                    effects.push(Effect::ReequipHand(hand, next));
                    assert(effects_view(effects@) =~= seq![EffectView::ReequipHand(hand, n)]);
                },
                None => {
                    assert(effects_view(effects@) =~= Seq::<EffectView>::empty());
                },
            }
        }
        effects
    }

    /// A two-hander took both hands: the left slot shows nothing and the left hand is emptied.
    pub fn switch_to_two_hander(&mut self) -> (r: Vec<Effect>)
        ensures
            effects_view(r@) == seq![EffectView::UnequipSlot(Action::Left)],
            final(self).visible.shown(HudElement::Left) == Some(empty_view()),
            forall|o: HudElement| o != HudElement::Left ==> #[trigger] final(self).visible.shown(o) == old(self).visible.shown(o),
            final(self).cycles == old(self).cycles,
            final(self).two_hander_equipped == old(self).two_hander_equipped,
            final(self).left_hand_cached == old(self).left_hand_cached,
            final(self).right_hand_cached == old(self).right_hand_cached,
            final(self).cgo_alt_grip == old(self).cgo_alt_grip,
            final(self).keys == old(self).keys,
    {
        self.visible.update_slot(HudElement::Left, ShownItem::empty());
        let mut effects: Vec<Effect> = Vec::new();
        effects.push(Effect::UnequipSlot(Action::Left));
        assert(effects_view(effects@) =~= seq![EffectView::UnequipSlot(Action::Left)]);
        effects
    }

    /// The player switched the alternative grip on or off. `right` is the
    /// item in the right hand and `equipped_left` the spec in the left hand.
    /// A ranged weapon or a non-weapon changes nothing more; otherwise the
    /// hands are set up for the grip the weapon now has.
    pub fn handle_grip_change(
        &mut self,
        using_alt_grip: bool,
        right: &ShownItem,
        equipped_left: &str,
        ranged_equipped: bool,
        table: &ItemTable,
    ) -> (r: Vec<Effect>)
        ensures
            final(self).cgo_alt_grip == using_alt_grip,
            final(self).cycles == old(self).cycles,
            final(self).two_hander_equipped == old(self).two_hander_equipped,
            ranged_equipped || !(right.kind is Weapon) ==> r@.len() == 0 && final(self).visible
                == old(self).visible && final(self).left_hand_cached == old(self).left_hand_cached
                && final(self).right_hand_cached == old(self).right_hand_cached,
            !ranged_equipped && right.kind is Weapon && (using_alt_grip == right.kind.spec_two_handed()) ==> ({
                let (show, effects, cached) = hand_return(
                    old(self).left_hand_cached@,
                    old(self).cycles.slot(CycleSlot::Left),
                    Action::Left,
                    table.entries(),
                );
                &&& effects_view(r@) == effects
                &&& final(self).left_hand_cached@ == cached
                &&& final(self).right_hand_cached == old(self).right_hand_cached
                &&& final(self).visible.shown(HudElement::Left) == match show {
                    Some(x) => Some(x),
                    None => old(self).visible.shown(HudElement::Left),
                }
                &&& forall|o: HudElement| o != HudElement::Left ==> #[trigger] final(self).visible.shown(o)
                    == old(self).visible.shown(o)
            }),
            !ranged_equipped && right.kind is Weapon && (using_alt_grip != right.kind.spec_two_handed()) ==> ({
                &&& effects_view(r@) == seq![EffectView::UnequipSlot(Action::Left)]
                &&& final(self).visible.shown(HudElement::Left) == Some(empty_view())
                &&& final(self).right_hand_cached == old(self).right_hand_cached
                &&& using_alt_grip ==> final(self).left_hand_cached@ == equipped_left@
                &&& !using_alt_grip ==> final(self).left_hand_cached == old(self).left_hand_cached
                &&& forall|o: HudElement| o != HudElement::Left ==> #[trigger] final(self).visible.shown(o)
                    == old(self).visible.shown(o)
            }),
    {
        self.cgo_alt_grip = using_alt_grip;
        if ranged_equipped || !right.kind.is_weapon() {
            return Vec::new();
        }
        let two_handed = right.kind.two_handed();
        if using_alt_grip && two_handed {
            self.return_hand(Action::Left, table)
        } else if using_alt_grip && !two_handed {
            let r = self.switch_to_two_hander();
            self.left_hand_cached = String::from_str(equipped_left);
            r
        } else if two_handed {
            self.switch_to_two_hander()
        } else {
            self.return_hand(Action::Left, table)
        }
    }

    /// The game reports that an item was equipped or unequipped; `item` is the
    /// item, `equipped_right` and `equipped_left` what the hands hold now,
    /// and `transformed` whether the player is a werewolf or a vampire lord.
    /// Ammo and powers show in their slots (a power changed outside the HUD
    /// also turns its cycle); utility items change nothing. An item in a
    /// hand that counts as two-handed shows on the right, turns the right
    /// cycle when it came from outside the HUD, and empties the left slot.
    /// A one-handed item that the HUD did not expect is shown and
    /// remembered in its hand; after a switch from a two-hander the other
    /// hand gets back what it held. Says whether the change came from
    /// outside the HUD, with the effects for the game.
    #[verifier::rlimit(40)]
    pub fn handle_item_equipped(
        &mut self,
        equipped: bool,
        item: &ShownItem,
        equipped_right: &str,
        equipped_left: &str,
        transformed: bool,
        table: &ItemTable,
    ) -> (r: (bool, Vec<Effect>))
        ensures
            final(self).cgo_alt_grip == old(self).cgo_alt_grip,
            final(self).keys == old(self).keys,
            !equipped ==> r.1@.len() == 0 && unequip_outcome(
                *old(self),
                *final(self),
                r.0,
                item.kind,
                item.form_string@,
                equipped_right@,
                equipped_left@,
            ),
            equipped && item.kind is Ammo ==> ({
                &&& r.1@.len() == 0
                &&& final(self).cycles == old(self).cycles
                &&& final(self).two_hander_equipped == old(self).two_hander_equipped
                &&& final(self).left_hand_cached == old(self).left_hand_cached
                &&& final(self).right_hand_cached == old(self).right_hand_cached
                &&& shows(old(self).visible, HudElement::Ammo, item.form_string@) ==> !r.0
                    && final(self).visible == old(self).visible
                &&& !shows(old(self).visible, HudElement::Ammo, item.form_string@) ==> r.0
                    && only_slot_changed(old(self).visible, final(self).visible, HudElement::Ammo, item@)
            }),
            equipped && !(item.kind is Ammo) && item.kind.spec_is_utility() ==> !r.0 && r.1@.len() == 0
                && *final(self) == *old(self),
            equipped && !(item.kind is Ammo) && !item.kind.spec_is_utility() && item.kind.spec_is_power() ==> ({
                &&& r.1@.len() == 0
                &&& final(self).two_hander_equipped == old(self).two_hander_equipped
                &&& final(self).left_hand_cached == old(self).left_hand_cached
                &&& final(self).right_hand_cached == old(self).right_hand_cached
                &&& shows(old(self).visible, HudElement::Power, item.form_string@) ==> !r.0
                    && *final(self) == *old(self)
                &&& !shows(old(self).visible, HudElement::Power, item.form_string@) ==> r.0
                    && only_slot_changed(old(self).visible, final(self).visible, HudElement::Power, item@)
                &&& old(self).visible.shown(HudElement::Power) is None ==> final(self).cycles == old(self).cycles
                &&& old(self).visible.shown(HudElement::Power) is Some && !shows(
                    old(self).visible,
                    HudElement::Power,
                    item.form_string@,
                ) ==> final(self).cycles.slot(CycleSlot::Power)
                    == turned_to(old(self).cycles.slot(CycleSlot::Power), item.form_string@)
                    && final(self).cycles.same_but(old(self).cycles, CycleSlot::Power)
            }),
            equipped && !(item.kind is Ammo) && !item.kind.spec_is_utility() && !item.kind.spec_is_power()
                && item.form_string@ != equipped_right@ && item.form_string@ != equipped_left@ ==> !r.0
                && r.1@.len() == 0 && *final(self) == *old(self),
            equipped && !(item.kind is Ammo) && !item.kind.spec_is_utility() && !item.kind.spec_is_power() && (
            item.form_string@ == equipped_right@ || item.form_string@ == equipped_left@) ==> ({
                let f = item.form_string@;
                let right = f == equipped_right@;
                let left = f == equipped_left@;
                let ru = shown_spec(old(self).visible, HudElement::Right) != equipped_right@;
                let lu = shown_spec(old(self).visible, HudElement::Left) != equipped_left@;
                let note_right = right && ru;
                let note_left = !note_right && left && lu;
                let mid_lc = if note_left { f } else { old(self).left_hand_cached@ };
                let mid_rc = if note_right { f } else { old(self).right_hand_cached@ };
                let mid_l = if note_left { Some(item@) } else { old(self).visible.shown(HudElement::Left) };
                let mid_r = if note_right { Some(item@) } else { old(self).visible.shown(HudElement::Right) };
                let act = !transformed && item.kind.spec_two_handed() != old(self).two_hander_equipped;
                let (sl, fx_l, cl) = hand_return(
                    mid_lc,
                    old(self).cycles.slot(CycleSlot::Left),
                    Action::Left,
                    table.entries(),
                );
                let (sr, fx_r, cr) = hand_return(
                    mid_rc,
                    old(self).cycles.slot(CycleSlot::Right),
                    Action::Right,
                    table.entries(),
                );
                &&& final(self).two_hander_equipped == item.kind.spec_two_handed()
                &&& old(self).spec_treat_as_two_handed(item.kind) && right ==> ({
                    &&& r.0 == (old(self).visible.shown(HudElement::Right) matches Some(x) && x != item@)
                    &&& r.1@.len() == 0
                    &&& final(self).visible.shown(HudElement::Right) == Some(item@)
                    &&& final(self).visible.shown(HudElement::Left) == Some(empty_view())
                    &&& forall|o: HudElement| o != HudElement::Left && o != HudElement::Right
                        ==> #[trigger] final(self).visible.shown(o) == old(self).visible.shown(o)
                    &&& final(self).left_hand_cached == old(self).left_hand_cached
                    &&& final(self).right_hand_cached == old(self).right_hand_cached
                    &&& r.0 ==> final(self).cycles.slot(CycleSlot::Right) == turned_to(
                        old(self).cycles.slot(CycleSlot::Right),
                        f,
                    ) && final(self).cycles.same_but(old(self).cycles, CycleSlot::Right)
                    &&& !r.0 ==> final(self).cycles == old(self).cycles
                })
                &&& old(self).spec_treat_as_two_handed(item.kind) && !right ==> ({
                    &&& !r.0
                    &&& r.1@.len() == 0
                    &&& final(self).visible == old(self).visible
                    &&& final(self).cycles == old(self).cycles
                    &&& final(self).left_hand_cached == old(self).left_hand_cached
                    &&& final(self).right_hand_cached == old(self).right_hand_cached
                })
                &&& !old(self).spec_treat_as_two_handed(item.kind) ==> ({
                    &&& r.0 == (!transformed && (lu || ru))
                    &&& effects_view(r.1@) == (if act && right { fx_l } else { Seq::empty() }) + (if act
                        && left { fx_r } else { Seq::empty() })
                    &&& final(self).left_hand_cached@ == (if act && right { cl } else { mid_lc })
                    &&& final(self).right_hand_cached@ == (if act && left { cr } else { mid_rc })
                    &&& final(self).visible.shown(HudElement::Left) == (if act && right && sl is Some { sl } else { mid_l })
                    &&& final(self).visible.shown(HudElement::Right) == (if act && left && sr is Some { sr } else { mid_r })
                    &&& forall|o: HudElement| o != HudElement::Left && o != HudElement::Right
                        ==> #[trigger] final(self).visible.shown(o) == old(self).visible.shown(o)
                    &&& final(self).cycles == old(self).cycles
                })
            }),
    {
        if !equipped {
            let changed = self.handle_item_unequipped(item, item.form_string.as_str(), equipped_right, equipped_left);
            return (changed, Vec::new());
        }
        let f = item.form_string.as_str();
        let none: Vec<Effect> = Vec::new();
        if item.kind.is_ammo() {
            match self.visible.get(HudElement::Ammo) {
                Some(v) => {
                    if same_text(v.form_string.as_str(), f) {
                        return (false, none);
                    }
                },
                None => {},
            }
            self.visible.update_slot(HudElement::Ammo, item.duplicate());
            return (true, none);
        }
        if item.kind.is_utility() {
            return (false, none);
        }
        if item.kind.is_power() {
            match self.visible.get(HudElement::Power) {
                Some(v) => {
                    if same_text(v.form_string.as_str(), f) {
                        return (false, none);
                    }
                    self.visible.update_slot(HudElement::Power, item.duplicate());
                    self.cycles.turn_to(&CycleSlot::Power, f);
                    return (true, none);
                },
                None => {
                    self.visible.update_slot(HudElement::Power, item.duplicate());
                    return (true, none);
                },
            }
        }
        let right = same_text(f, equipped_right);
        let left = same_text(f, equipped_left);
        if !left && !right {
            return (false, none);
        }
        let treat = self.treat_as_two_handed(&item.kind);
        let two_handed = item.kind.two_handed();
        let switching = two_handed != self.two_hander_equipped;
        self.two_hander_equipped = two_handed;
        if treat && right {
            let changed = self.visible.update_slot(HudElement::Right, item.duplicate());
            if changed {
                self.cycles.turn_to(&CycleSlot::Right, f);
            }
            self.visible.update_slot(HudElement::Left, ShownItem::empty());
            return (changed, none);
        } else if treat && left {
            return (false, none);
        }
        let leftvis = self.visible.spec_in(HudElement::Left);
        let rightvis = self.visible.spec_in(HudElement::Right);
        let right_unexpected = !same_text(rightvis.as_str(), equipped_right);
        let left_unexpected = !same_text(leftvis.as_str(), equipped_left);
        if right && right_unexpected {
            self.right_hand_cached = String::from_str(f);
            self.visible.update_slot(HudElement::Right, item.duplicate());
        } else if left && left_unexpected {
            self.left_hand_cached = String::from_str(f);
            self.visible.update_slot(HudElement::Left, item.duplicate());
        }
        if transformed {
            return (false, none);
        }
        let unexpected = left_unexpected || right_unexpected;
        if !switching {
            return (unexpected, none);
        }
        let mut effects = none;
        if right {
            let mut e = self.return_hand(Action::Left, table);
            effects.append(&mut e);
        }
        let ghost after_left = effects@;
        if left {
            let mut e = self.return_hand(Action::Right, table);
            effects.append(&mut e);
        }
        proof {
            assert(effects_view(effects@) =~= effects_view(after_left) + effects_view(effects@.skip(after_left.len() as int)));
        }
        (unexpected, effects)
    }

    /// The player pressed a cycle key over an item in a menu: toggle the item
    /// in that cycle. When an item left the utility cycle, the utility slot
    /// shows the new top of the cycle, or nothing. Says what happened and to
    /// which cycle, for the message to the player; actions that name no
    /// cycle do nothing.
    pub fn handle_toggle_item(&mut self, action: Action, item: &ShownItem, maxlen: u32, table: &ItemTable) -> (r: Option<(MenuEventResponse, CycleLabel)>)
        ensures
            super::keys::action_slot(action) is None ==> r is None && final(self).cycles == old(self).cycles
                && final(self).visible == old(self).visible,
            super::keys::action_slot(action) matches Some(slot) ==> ({
                &&& r matches Some(p) && p.1 == action_label(action)
                &&& r matches Some(p) && super::cycles::toggled(
                    old(self).cycles.slot(slot),
                    final(self).cycles.slot(slot),
                    p.0,
                    slot,
                    item.kind,
                    item.form_string@,
                    maxlen,
                )
                &&& final(self).cycles.same_but(old(self).cycles, slot)
                &&& (r matches Some(p) && p.0 == MenuEventResponse::ItemRemoved && action is Utility)
                    ==> final(self).visible.shown(HudElement::Utility) == Some(
                    match first_of_slot(final(self).cycles, CycleSlot::Utility) {
                        Some(top) => item_for(table.entries(), top),
                        None => empty_view(),
                    },
                ) && forall|o: HudElement| o != HudElement::Utility ==> #[trigger] final(self).visible.shown(o) == old(self).visible.shown(o)
                &&& !(r matches Some(p) && p.0 == MenuEventResponse::ItemRemoved && action is Utility)
                    ==> final(self).visible == old(self).visible
            }),
            final(self).two_hander_equipped == old(self).two_hander_equipped,
            final(self).left_hand_cached == old(self).left_hand_cached,
            final(self).right_hand_cached == old(self).right_hand_cached,
            final(self).cgo_alt_grip == old(self).cgo_alt_grip,
            final(self).keys == old(self).keys,
    {
        let slot = match CycleSlot::try_from(action) {
            Ok(slot) => slot,
            Err(_) => {
                return None;
            },
        };
        let result = self.cycles.toggle(&slot, item.form_string.as_str(), &item.kind, maxlen);
        if matches!(result, MenuEventResponse::ItemRemoved) && matches!(action, Action::Utility) {
            match self.cycles.get_top(&CycleSlot::Utility) {
                Some(top) => {
                    let shown = table.get(top.as_str());
                    self.visible.update_slot(HudElement::Utility, shown);
                },
                None => {
                    self.visible.update_slot(HudElement::Utility, ShownItem::empty());
                },
            }
        }
        let label = match action {
            Action::Power => CycleLabel::Powers,
            Action::Left => CycleLabel::LeftHand,
            Action::Right => CycleLabel::RightHand,
            _ => CycleLabel::Utilities,
        };
        Some((result, label))
    }
}

/// The long-press timer of a key, if it has one.
pub open spec fn long_press_timer(h: Hotkey) -> Option<Action> {
    match h {
        Hotkey::Left => Some(Action::LongPressLeft),
        Hotkey::Right => Some(Action::LongPressRight),
        Hotkey::Power => Some(Action::LongPressPower),
        Hotkey::Utility => Some(Action::LongPressUtility),
        _ => None,
    }
}

/// The timer effects of a key event: when long presses are tracked, a key
/// going down starts its long-press timer and a key going up stops it.
pub open spec fn timer_effects(tracking: bool, st: KeyState, h: Hotkey, ms: u32) -> Seq<EffectView> {
    if !tracking {
        Seq::empty()
    } else {
        match long_press_timer(h) {
            Some(a) => match st {
                KeyState::Down => seq![EffectView::StartTimer(a, ms)],
                KeyState::Up => seq![EffectView::StopTimer(a)],
                KeyState::Pressed => Seq::empty(),
            },
            None => Seq::empty(),
        }
    }
}

/// Whether a press has lasted longer than `ms` at time `now`.
pub open spec fn long_at(t: TrackedKey, now: u64, ms: u32) -> bool {
    match t.press_start {
        Some(start) => now >= start && now - start > ms,
        None => false,
    }
}

/// Whether a key event goes on to be handled: not when the key was held
/// past a long press whose timer was running, outside menus.
pub open spec fn key_kept(prev: Option<TrackedKey>, now: u64, s: KeySettings, h: Hotkey, in_menu: bool) -> bool {
    !(prev matches Some(p) && p.state is Pressed && long_at(p, now, s.long_press_ms) && !in_menu
        && s.spec_should_start_long_press_timer(h))
}

/// The HUD state is the same in both: cycles, slots, hands and grip.
pub open spec fn same_hud(before: Controller, after: Controller) -> bool {
    &&& after.cycles == before.cycles
    &&& after.visible == before.visible
    &&& after.two_hander_equipped == before.two_hander_equipped
    &&& after.left_hand_cached == before.left_hand_cached
    &&& after.right_hand_cached == before.right_hand_cached
    &&& after.cgo_alt_grip == before.cgo_alt_grip
}

/// Whether a cycle key advances its cycle: always when cycling by hotkey,
/// with the cycle modifier held when cycling by modifier, never otherwise.
pub open spec fn cycle_allowed(s: KeySettings, cycle_held: bool) -> bool {
    s.how_to_cycle is Hotkey || (s.how_to_cycle is Modifier && cycle_held)
}

/// What the game reports alongside a key press: the form specs in the hands
/// and the ammunition slot, the ammunition in the inventory, and whether a
/// ranged weapon is equipped.
#[derive(Clone, Debug)]
pub struct GameFacts {
    pub equipped_left: String,
    pub equipped_right: String,
    pub equipped_ammo: String,
    pub ammo: Vec<String>,
    pub ranged_equipped: bool,
}

impl Controller {
    /// Record a button event for key `code`, which means `hotkey`, at time
    /// `now`. Outside menus, keys with long-press actions start their
    /// long-press timer going down and stop it going up. Says whether the
    /// caller should go on handling the key: not when the key was held past
    /// a long press that a timer handled already.
    pub fn update_tracked_key(
        &mut self,
        code: u32,
        hotkey: Hotkey,
        is_down: bool,
        is_pressed: bool,
        now: u64,
        in_menu: bool,
        s: &KeySettings,
    ) -> (r: (bool, Vec<Effect>, TrackedKey))
        ensures
            ({
                let tracking = !in_menu && s.spec_should_start_long_press_timer(hotkey);
                &&& r.0 == key_kept(old(self).keys.entry(code), now, *s, hotkey, in_menu)
                &&& r.2 == super::keys::event_entry(old(self).keys.entry(code), code, hotkey, is_down, is_pressed, now)
                &&& effects_view(r.1@) == timer_effects(
                    tracking,
                    KeyState::from_button_spec(is_down, is_pressed),
                    hotkey,
                    s.long_press_ms,
                )
            }),
            final(self).keys.keys@ == super::keys::recorded(old(self).keys.keys@, code, hotkey, is_down, is_pressed, now),
            final(self).cycles == old(self).cycles,
            final(self).visible == old(self).visible,
            final(self).two_hander_equipped == old(self).two_hander_equipped,
            final(self).left_hand_cached == old(self).left_hand_cached,
            final(self).right_hand_cached == old(self).right_hand_cached,
            final(self).cgo_alt_grip == old(self).cgo_alt_grip,
    {
        let tracking = !in_menu && s.should_start_long_press_timer(&hotkey);
        let (prev, now_entry) = self.keys.record(code, hotkey, is_down, is_pressed, now);
        let keep = match prev {
            Some(p) => !(matches!(p.state, KeyState::Pressed) && p.is_long_press(now, s.long_press_ms) && tracking),
            None => true,
        };
        let mut effects: Vec<Effect> = Vec::new();
        if tracking {
            let timer = match hotkey {
                Hotkey::Left => Some(Action::LongPressLeft),
                Hotkey::Right => Some(Action::LongPressRight),
                Hotkey::Power => Some(Action::LongPressPower),
                Hotkey::Utility => Some(Action::LongPressUtility),
                _ => None,
            };
            match timer {
                Some(a) => match now_entry.state {
                    KeyState::Down => effects.push(Effect::StartTimer(a, s.long_press_ms)),
                    KeyState::Up => effects.push(Effect::StopTimer(a)),
                    KeyState::Pressed => {},
                },
                None => {},
            }
        }
        assert(effects_view(effects@) =~= timer_effects(
            tracking,
            KeyState::from_button_spec(is_down, is_pressed),
            hotkey,
            s.long_press_ms,
        ));
        (keep, effects, now_entry)
    }

    /// The powers key: advances the powers cycle when the settings allow it.
    pub fn handle_cycle_power(&mut self, s: &KeySettings, cycle_held: bool, table: &ItemTable) -> (r:
        KeyEventResponse)
        requires
            cycle_allowed(*s, cycle_held) ==> rotation_allowed(
                old(self).cycles,
                old(self).visible,
                CycleSlot::Power,
                HudElement::Power,
            ),
        ensures
            !cycle_allowed(*s, cycle_held) ==> r == unhandled() && *final(self) == *old(self),
            cycle_allowed(*s, cycle_held) ==> ({
                &&& final(self).cycles.slot(CycleSlot::Power) == cycle_after_press(
                    old(self).cycles,
                    old(self).visible,
                    CycleSlot::Power,
                    HudElement::Power,
                )
                &&& final(self).cycles.same_but(old(self).cycles, CycleSlot::Power)
                &&& final(self).cycles.slot(CycleSlot::Power).len() > 0 ==> r == started(Action::Power)
                    && final(self).visible.shown(HudElement::Power) == Some(
                    item_for(table.entries(), final(self).cycles.slot(CycleSlot::Power)[0]),
                )
                &&& final(self).cycles.slot(CycleSlot::Power).len() == 0 ==> r == just_handled()
                    && final(self).visible.shown(HudElement::Power) == old(self).visible.shown(
                    HudElement::Power,
                )
                &&& forall|o: HudElement| o != HudElement::Power ==> #[trigger] final(self).visible.shown(o)
                    == old(self).visible.shown(o)
            }),
            final(self).two_hander_equipped == old(self).two_hander_equipped,
            final(self).left_hand_cached == old(self).left_hand_cached,
            final(self).right_hand_cached == old(self).right_hand_cached,
            final(self).cgo_alt_grip == old(self).cgo_alt_grip,
            final(self).keys == old(self).keys,
    {
        let allowed = match s.how_to_cycle {
            ActivationMethod::Hotkey => true,
            ActivationMethod::Modifier => cycle_held,
            ActivationMethod::LongPress => false,
        };
        if allowed {
            self.advance_cycle_power(table)
        } else {
            KeyEventResponse::default()
        }
    }

    /// The utility key: uses the current utility item when activation is by
    /// modifier and the activate modifier is held, else advances the utility
    /// cycle when the settings allow it.
    pub fn handle_cycle_utility(
        &mut self,
        s: &KeySettings,
        activate_held: bool,
        cycle_held: bool,
        table: &ItemTable,
    ) -> (r: (KeyEventResponse, Vec<Effect>))
        requires
            !(s.how_to_activate is Modifier && activate_held) && cycle_allowed(*s, cycle_held) ==> rotation_allowed(
                old(self).cycles,
                old(self).visible,
                CycleSlot::Utility,
                HudElement::Utility,
            ),
        ensures
            s.how_to_activate is Modifier && activate_held ==> ({
                &&& r.0 == (KeyEventResponse {
                    handled: true,
                    start_timer: Action::NoAction,
                    stop_timer: Action::Utility,
                })
                &&& effects_view(r.1@) == match first_of_slot(old(self).cycles, CycleSlot::Utility) {
                    Some(top) => opt_effects(utility_effect(item_for(table.entries(), top))),
                    None => Seq::<EffectView>::empty(),
                }
                &&& *final(self) == *old(self)
            }),
            !(s.how_to_activate is Modifier && activate_held) && cycle_allowed(*s, cycle_held) ==> ({
                &&& r.0 == just_handled()
                &&& r.1@.len() == 0
                &&& final(self).cycles.slot(CycleSlot::Utility) == cycle_after_press(
                    old(self).cycles,
                    old(self).visible,
                    CycleSlot::Utility,
                    HudElement::Utility,
                )
                &&& final(self).cycles.same_but(old(self).cycles, CycleSlot::Utility)
                &&& final(self).cycles.slot(CycleSlot::Utility).len() > 0 ==> final(self).visible.shown(
                    HudElement::Utility,
                ) == Some(item_for(table.entries(), final(self).cycles.slot(CycleSlot::Utility)[0]))
                &&& final(self).cycles.slot(CycleSlot::Utility).len() == 0 ==> final(self).visible.shown(
                    HudElement::Utility,
                ) == old(self).visible.shown(HudElement::Utility)
                &&& forall|o: HudElement| o != HudElement::Utility ==> #[trigger] final(self).visible.shown(o)
                    == old(self).visible.shown(o)
            }),
            !(s.how_to_activate is Modifier && activate_held) && !cycle_allowed(*s, cycle_held) ==> r.0
                == unhandled() && r.1@.len() == 0 && *final(self) == *old(self),
            final(self).two_hander_equipped == old(self).two_hander_equipped,
            final(self).left_hand_cached == old(self).left_hand_cached,
            final(self).right_hand_cached == old(self).right_hand_cached,
            final(self).cgo_alt_grip == old(self).cgo_alt_grip,
            final(self).keys == old(self).keys,
    {
        if matches!(s.how_to_activate, ActivationMethod::Modifier) && activate_held {
            return self.use_utility_item(table);
        }
        let allowed = match s.how_to_cycle {
            ActivationMethod::Hotkey => true,
            ActivationMethod::Modifier => cycle_held,
            ActivationMethod::LongPress => false,
        };
        if allowed {
            (self.advance_cycle_utilities(table), Vec::new())
        } else {
            (KeyEventResponse::default(), Vec::new())
        }
    }

    /// Rotate to the next equipset and start the equipset timer.
    pub fn advance_cycle_equipset(&mut self) -> (r: KeyEventResponse)
        requires
            old(self).cycles.sets().len() > 0,
        ensures
            r == started(Action::Equipment),
            final(self).cycles.sets() == rotated(old(self).cycles.sets(), 1),
            final(self).cycles.same_cycles(old(self).cycles),
            final(self).visible == old(self).visible,
            final(self).two_hander_equipped == old(self).two_hander_equipped,
            final(self).left_hand_cached == old(self).left_hand_cached,
            final(self).right_hand_cached == old(self).right_hand_cached,
            final(self).cgo_alt_grip == old(self).cgo_alt_grip,
            final(self).keys == old(self).keys,
    {
        let candidate = self.cycles.advance_equipset(1);
        match candidate {
            Some(_next) => KeyEventResponse {
                handled: true,
                start_timer: Action::Equipment,
                stop_timer: Action::NoAction,
            },
            None => KeyEventResponse::handled(),
        }
    }

    /// The equipset key: advances the equipsets when the settings allow it.
    pub fn handle_cycle_equipset(&mut self, s: &KeySettings, cycle_held: bool) -> (r: KeyEventResponse)
        requires
            cycle_allowed(*s, cycle_held) ==> old(self).cycles.sets().len() > 0,
        ensures
            cycle_allowed(*s, cycle_held) ==> r == started(Action::Equipment) && final(self).cycles.sets()
                == rotated(old(self).cycles.sets(), 1) && final(self).cycles.same_cycles(old(self).cycles),
            !cycle_allowed(*s, cycle_held) ==> r == unhandled() && final(self).cycles == old(self).cycles,
            final(self).visible == old(self).visible,
            final(self).two_hander_equipped == old(self).two_hander_equipped,
            final(self).left_hand_cached == old(self).left_hand_cached,
            final(self).right_hand_cached == old(self).right_hand_cached,
            final(self).cgo_alt_grip == old(self).cgo_alt_grip,
            final(self).keys == old(self).keys,
    {
        let allowed = match s.how_to_cycle {
            ActivationMethod::Hotkey => true,
            ActivationMethod::Modifier => cycle_held,
            ActivationMethod::LongPress => false,
        };
        if allowed {
            self.advance_cycle_equipset()
        } else {
            KeyEventResponse::default()
        }
    }
}

/// Whether releasing a hand key switches ammunition instead: the left key
/// asks to advance while a ranged weapon is equipped and ammunition cycles.
pub open spec fn ammo_instead(slot: CycleSlot, req: RequestedAction, s: KeySettings, ranged: bool) -> bool {
    slot is Left && req is Advance && ranged && s.cycle_ammo
}

/// The form spec a hand holds.
pub open spec fn held_in(facts: GameFacts, slot: CycleSlot) -> Seq<char> {
    if slot is Left {
        facts.equipped_left@
    } else {
        facts.equipped_right@
    }
}

impl Controller {
    /// Release of a hand key: do what the settings make of the release
    /// (see `keyup_action`); the left key switches ammunition when it asks
    /// to advance while a ranged weapon is equipped and ammunition cycles.
    pub fn handle_hand_key(
        &mut self,
        slot: CycleSlot,
        s: &KeySettings,
        long_press: bool,
        unequip_held: bool,
        cycle_held: bool,
        facts: &GameFacts,
        table: &ItemTable,
    ) -> (r: (KeyEventResponse, Vec<Effect>))
        requires
            slot is Left || slot is Right,
            ({
                let req = super::keys::spec_keyup_action(*s, long_press, unequip_held, cycle_held);
                req is Advance && !ammo_instead(slot, req, *s, facts.ranged_equipped) ==> old(self).hand_advance_ok(slot)
            }),
        ensures
            ({
                let req = super::keys::spec_keyup_action(*s, long_press, unequip_held, cycle_held);
                &&& ammo_instead(slot, req, *s, facts.ranged_equipped) ==> ({
                    &&& *final(self) == *old(self)
                    &&& facts.ammo@.len() < 2 ==> r.0 == unhandled() && r.1@.len() == 0
                    &&& facts.ammo@.len() >= 2 ==> r.0 == just_handled() && effects_view(r.1@) == seq![
                        EffectView::EquipAmmo(next_ammo(facts.equipped_ammo@, facts.ammo.deep_view())),
                    ]
                })
                &&& !ammo_instead(slot, req, *s, facts.ranged_equipped) ==> ({
                    &&& req is Unequip ==> ({
                        &&& r.0 == stopped(hand_action(slot))
                        &&& effects_view(r.1@) == seq![EffectView::UnequipSlot(hand_action(slot))]
                        &&& final(self).visible.shown(hand_element(slot)) == Some(unarmed_view())
                        &&& final(self).cycles.slot(slot) == turned_to(old(self).cycles.slot(slot), "unarmed_proxy"@)
                        &&& final(self).cycles.same_but(old(self).cycles, slot)
                    })
                    &&& req is Advance ==> ({
                        let plan = old(self).hand_advance(slot, table.entries());
                        &&& final(self).cycles.slot(slot) == plan.mine
                        &&& final(self).cycles.slot(other_hand(slot)) == plan.other
                        &&& r.0 == plan.response
                        &&& advance_outcome(*old(self), *final(self), effects_view(r.1@), slot, table.entries())
                    })
                    &&& req is Match ==> r.0 == stopped(hand_action(slot)) && final(self).cycles == old(self).cycles
                        && match_outcome(
                        old(self).visible,
                        final(self).visible,
                        effects_view(r.1@),
                        hand_action(slot),
                        held_in(*facts, slot),
                        table.entries(),
                    )
                    &&& req is NoAction ==> r.0 == unhandled() && r.1@.len() == 0 && final(self).visible
                        == old(self).visible && final(self).cycles == old(self).cycles
                })
            }),
            final(self).two_hander_equipped == old(self).two_hander_equipped,
            final(self).left_hand_cached == old(self).left_hand_cached,
            final(self).right_hand_cached == old(self).right_hand_cached,
            final(self).cgo_alt_grip == old(self).cgo_alt_grip,
            final(self).keys == old(self).keys,
    {
        let req = super::keys::keyup_action(s, long_press, unequip_held, cycle_held);
        if matches!(slot, CycleSlot::Left) && matches!(req, RequestedAction::Advance) && facts.ranged_equipped
            && s.cycle_ammo {
            return advance_ammo(facts.equipped_ammo.as_str(), &facts.ammo);
        }
        let equipped = match slot {
            CycleSlot::Left => facts.equipped_left.as_str(),
            _ => facts.equipped_right.as_str(),
        };
        self.do_hand_action(req, slot, equipped, facts.equipped_ammo.as_str(), &facts.ammo, table)
    }

    /// The unequip hotkey: empty both hands, left first.
    pub fn disarm_player(&mut self, table: &ItemTable) -> (r: (KeyEventResponse, Vec<Effect>))
        ensures
            r.0 == stopped(Action::Right),
            effects_view(r.1@) == seq![EffectView::UnequipSlot(Action::Left), EffectView::UnequipSlot(Action::Right)],
            final(self).visible.shown(HudElement::Left) == Some(unarmed_view()),
            final(self).visible.shown(HudElement::Right) == Some(unarmed_view()),
            forall|o: HudElement| o != HudElement::Left && o != HudElement::Right ==> #[trigger] final(self).visible.shown(o) == old(self).visible.shown(o),
            final(self).cycles.slot(CycleSlot::Left) == turned_to(
                old(self).cycles.slot(CycleSlot::Left),
                "unarmed_proxy"@,
            ),
            final(self).cycles.slot(CycleSlot::Right) == turned_to(
                old(self).cycles.slot(CycleSlot::Right),
                "unarmed_proxy"@,
            ),
            final(self).cycles.slot(CycleSlot::Power) == old(self).cycles.slot(CycleSlot::Power),
            final(self).cycles.slot(CycleSlot::Utility) == old(self).cycles.slot(CycleSlot::Utility),
            final(self).cycles.sets() == old(self).cycles.sets(),
            final(self).two_hander_equipped == old(self).two_hander_equipped,
            final(self).left_hand_cached == old(self).left_hand_cached,
            final(self).right_hand_cached == old(self).right_hand_cached,
            final(self).cgo_alt_grip == old(self).cgo_alt_grip,
            final(self).keys == old(self).keys,
    {
        let none: Vec<String> = Vec::new();
        let (_, mut effects) = self.do_hand_action(RequestedAction::Unequip, CycleSlot::Left, "", "", &none, table);
        let (r, mut more) = self.do_hand_action(RequestedAction::Unequip, CycleSlot::Right, "", "", &none, table);
        let ghost first = effects@;
        let ghost second = more@;
        assert(effects_view(first) == seq![EffectView::UnequipSlot(Action::Left)]);
        assert(effects_view(second) == seq![EffectView::UnequipSlot(Action::Right)]);
        assert(first.len() == 1 && first[0]@ == effects_view(first)[0]);
        assert(effects_view(second).len() == second.len());
        assert(second[0]@ == effects_view(second)[0]);
        effects.append(&mut more);
        assert(effects@ == first + second);
        assert(effects_view(effects@) =~= seq![
            EffectView::UnequipSlot(Action::Left),
            EffectView::UnequipSlot(Action::Right),
        ]);
        (r, effects)
    }
}

impl Controller {
    /// Whether handling a key release can go ahead without rotating an empty
    /// cycle: the cycle a released key would advance must allow it.
    pub open spec fn key_event_safe(
        self,
        key: u32,
        is_down: bool,
        is_pressed: bool,
        now: u64,
        s: KeySettings,
        ranged: bool,
    ) -> bool {
        let h = super::keys::hotkey_for_key(key, s);
        let prev = self.keys.entry(key);
        let keys = super::keys::recorded(self.keys.keys@, key, h, is_down, is_pressed, now);
        let entry = super::keys::event_entry(prev, key, h, is_down, is_pressed, now);
        let cycle_held = super::keys::job_held_in(keys, Modifier::Cycle);
        let act_held = super::keys::job_held_in(keys, Modifier::Activate);
        let req = super::keys::spec_keyup_action(
            s,
            long_at(entry, now, s.long_press_ms),
            super::keys::job_held_in(keys, Modifier::Unequip),
            cycle_held,
        );
        KeyState::from_button_spec(is_down, is_pressed) is Up && key_kept(prev, now, s, h, false) ==> {
            &&& h is Power && cycle_allowed(s, cycle_held) ==> rotation_allowed(
                self.cycles,
                self.visible,
                CycleSlot::Power,
                HudElement::Power,
            )
            &&& h is Utility && !(s.how_to_activate is Modifier && act_held) && cycle_allowed(s, cycle_held)
                ==> rotation_allowed(self.cycles, self.visible, CycleSlot::Utility, HudElement::Utility)
            &&& h is Equipment && cycle_allowed(s, cycle_held) ==> self.cycles.sets().len() > 0
            &&& h is Left && req is Advance && !ammo_instead(CycleSlot::Left, req, s, ranged)
                ==> self.hand_advance_ok(CycleSlot::Left)
            &&& h is Right && req is Advance ==> self.hand_advance_ok(CycleSlot::Right)
        }
    }

    /// Whether a power or utility key press may rotate the cycle (see
    /// `rotation_allowed`).
    pub fn rotation_ok(&self, slot: CycleSlot, e: HudElement) -> (r: bool)
        ensures
            r == rotation_allowed(self.cycles, self.visible, slot, e),
    {
        let shown_elsewhere = match self.visible.get(e) {
            Some(v) => !self.cycles.includes(&slot, v.form_string.as_str()),
            None => false,
        };
        shown_elsewhere || self.cycles.cycle_len(&slot) > 0
    }

    /// Whether advancing a hand cycle stays within what the rotation allows
    /// (see `hand_advance_ok`).
    pub fn hand_advance_allowed(&self, which: CycleSlot) -> (r: bool)
        ensures
            r == self.hand_advance_ok(which),
    {
        let other = if matches!(which, CycleSlot::Left) {
            HudElement::Right
        } else {
            HudElement::Left
        };
        let single_other = match self.visible.get(other) {
            Some(oe) => oe.kind.count_matters() && oe.count <= 1,
            None => false,
        };
        self.two_hander_equipped || self.cycles.cycle_len(&which) > 0 || single_other
    }

    /// Whether a long press of `which` may be handled: the cycle it would
    /// advance must allow it (the requirement of `handle_long_press` and
    /// `timer_fired`).
    pub fn long_press_allowed(&self, which: Action, s: &KeySettings, ranged_equipped: bool) -> (r: bool)
        ensures
            r == ({
                &&& which is LongPressLeft && Hotkey::Left.spec_long_press_action(*s, ranged_equipped) is Advance
                    ==> self.hand_advance_ok(CycleSlot::Left)
                &&& which is LongPressRight && Hotkey::Right.spec_long_press_action(*s, ranged_equipped) is Advance
                    ==> self.hand_advance_ok(CycleSlot::Right)
                &&& which is LongPressPower && Hotkey::Power.spec_long_press_action(*s, ranged_equipped) is Advance
                    ==> rotation_allowed(self.cycles, self.visible, CycleSlot::Power, HudElement::Power)
                &&& which is LongPressUtility && Hotkey::Utility.spec_long_press_action(*s, ranged_equipped)
                    is Advance && !(s.how_to_activate is Modifier && self.keys.job_held(Modifier::Activate))
                    && cycle_allowed(*s, self.keys.job_held(Modifier::Cycle)) ==> rotation_allowed(
                    self.cycles,
                    self.visible,
                    CycleSlot::Utility,
                    HudElement::Utility,
                )
            }),
    {
        match which {
            Action::LongPressLeft => {
                !matches!(Hotkey::Left.long_press_action(s, ranged_equipped), RequestedAction::Advance)
                    || self.hand_advance_allowed(CycleSlot::Left)
            },
            Action::LongPressRight => {
                !matches!(Hotkey::Right.long_press_action(s, ranged_equipped), RequestedAction::Advance)
                    || self.hand_advance_allowed(CycleSlot::Right)
            },
            Action::LongPressPower => {
                !matches!(Hotkey::Power.long_press_action(s, ranged_equipped), RequestedAction::Advance)
                    || self.rotation_ok(CycleSlot::Power, HudElement::Power)
            },
            Action::LongPressUtility => {
                let act_held = self.keys.modifier_pressed(Modifier::Activate);
                let cycle_held = self.keys.modifier_pressed(Modifier::Cycle);
                let allowed = match s.how_to_cycle {
                    ActivationMethod::Hotkey => true,
                    ActivationMethod::Modifier => cycle_held,
                    _ => false,
                };
                !matches!(Hotkey::Utility.long_press_action(s, ranged_equipped), RequestedAction::Advance)
                    || (matches!(s.how_to_activate, ActivationMethod::Modifier) && act_held) || !allowed
                    || self.rotation_ok(CycleSlot::Utility, HudElement::Utility)
            },
            _ => true,
        }
    }

    /// Whether `handle_key_event` may take this key event: a released key
    /// must not rotate an empty cycle (see `key_event_safe`).
    pub fn key_event_allowed(
        &self,
        key: u32,
        is_down: bool,
        is_pressed: bool,
        now: u64,
        s: &KeySettings,
        ranged_equipped: bool,
    ) -> (r: bool)
        ensures
            r == self.key_event_safe(key, is_down, is_pressed, now, *s, ranged_equipped),
    {
        let state = KeyState::from_button(is_down, is_pressed);
        if !matches!(state, KeyState::Up) {
            return true;
        }
        let h = Hotkey::from_key(key, s);
        let mut copied: Vec<TrackedKey> = Vec::new();
        let mut i: usize = 0;
        while i < self.keys.keys.len()
            invariant
                i <= self.keys.keys@.len(),
                copied@ =~= self.keys.keys@.take(i as int),
            decreases self.keys.keys.len() - i,
        {
            copied.push(self.keys.keys[i]);
            i += 1;
        }
        let mut keys = KeyTracker { keys: copied };
        assert(keys.keys@ =~= self.keys.keys@);
        let (prev, entry) = keys.record(key, h, is_down, is_pressed, now);
        let tracking = s.should_start_long_press_timer(&h);
        let keep = match prev {
            Some(p) => !(matches!(p.state, KeyState::Pressed) && p.is_long_press(now, s.long_press_ms) && tracking),
            None => true,
        };
        if !keep {
            return true;
        }
        let cycle_held = keys.modifier_pressed(Modifier::Cycle);
        let act_held = keys.modifier_pressed(Modifier::Activate);
        let unequip_held = keys.modifier_pressed(Modifier::Unequip);
        let allowed = match s.how_to_cycle {
            ActivationMethod::Hotkey => true,
            ActivationMethod::Modifier => cycle_held,
            _ => false,
        };
        let req = super::keys::keyup_action(s, entry.is_long_press(now, s.long_press_ms), unequip_held, cycle_held);
        let advance = matches!(req, RequestedAction::Advance);
        match h {
            Hotkey::Power => !allowed || self.rotation_ok(CycleSlot::Power, HudElement::Power),
            Hotkey::Utility => (matches!(s.how_to_activate, ActivationMethod::Modifier) && act_held) || !allowed
                || self.rotation_ok(CycleSlot::Utility, HudElement::Utility),
            Hotkey::Equipment => !allowed || self.cycles.equipsets.len() > 0,
            Hotkey::Left => !advance || (ranged_equipped && s.cycle_ammo) || self.hand_advance_allowed(
                CycleSlot::Left,
            ),
            Hotkey::Right => !advance || self.hand_advance_allowed(CycleSlot::Right),
            _ => true,
        }
    }

    /// Flip the visibility of the HUD, unless it fades by itself, and fade
    /// it in or out to match.
    fn show_or_hide(&mut self, autofade: bool) -> (r: Vec<Effect>)
        ensures
            final(self).cycles.hud_visible == (old(self).cycles.hud_visible != !autofade),
            forall|s: CycleSlot| #[trigger] final(self).cycles.slot(s) == old(self).cycles.slot(s),
            final(self).cycles.sets() == old(self).cycles.sets(),
            final(self).cycles.loaded == old(self).cycles.loaded,
            final(self).visible == old(self).visible,
            final(self).two_hander_equipped == old(self).two_hander_equipped,
            final(self).left_hand_cached == old(self).left_hand_cached,
            final(self).right_hand_cached == old(self).right_hand_cached,
            final(self).cgo_alt_grip == old(self).cgo_alt_grip,
            final(self).keys == old(self).keys,
            effects_view(r@) == (if autofade {
                Seq::<EffectView>::empty()
            } else {
                seq![EffectView::StartFade(!old(self).cycles.hud_visible)]
            }),
    {
        let mut v: Vec<Effect> = Vec::new();
        if !autofade {
            self.cycles.toggle_hud();
            v.push(Effect::StartFade(self.cycles.hud_visible));
        }
        assert(effects_view(v@) =~= (if autofade {
            Seq::<EffectView>::empty()
        } else {
            seq![EffectView::StartFade(!old(self).cycles.hud_visible)]
        }));
        v
    }

    /// A key event during play: key `key` went down, is held or went up at
    /// time `now`. Keys the HUD ignores are not handled. Every other key is
    /// recorded (see `update_tracked_key`); modifiers and releases after a
    /// long press end there, and a key that is not released is handled with
    /// nothing more to do. A released key shows the HUD briefly and then:
    /// the cycle keys advance their cycles as the settings allow (the hand
    /// keys as `handle_hand_key` says), the activate and unequip hotkeys use
    /// the utility item or empty both hands when the settings say so, the
    /// refresh key reads the layout again, and the show/hide key flips the
    /// HUD unless it fades by itself.
    #[verifier::rlimit(100)]
    #[verifier::spinoff_prover]
    pub fn handle_key_event(
        &mut self,
        key: u32,
        is_down: bool,
        is_pressed: bool,
        now: u64,
        s: &KeySettings,
        facts: &GameFacts,
        table: &ItemTable,
    ) -> (r: (KeyEventResponse, Vec<Effect>))
        requires
            old(self).key_event_safe(key, is_down, is_pressed, now, *s, facts.ranged_equipped),
        ensures
            ({
                let h = super::keys::hotkey_for_key(key, *s);
                let prev = old(self).keys.entry(key);
                let keys = super::keys::recorded(old(self).keys.keys@, key, h, is_down, is_pressed, now);
                let entry = super::keys::event_entry(prev, key, h, is_down, is_pressed, now);
                let st = KeyState::from_button_spec(is_down, is_pressed);
                let te = timer_effects(s.spec_should_start_long_press_timer(h), st, h, s.long_press_ms);
                let keep = key_kept(prev, now, *s, h, false);
                let acts = !(h is NoHotkey) && !(h is Modifier) && keep && st is Up;
                let cycle_held = super::keys::job_held_in(keys, Modifier::Cycle);
                let act_held = super::keys::job_held_in(keys, Modifier::Activate);
                let slot = if h is Left {
                    CycleSlot::Left
                } else {
                    CycleSlot::Right
                };
                let req = super::keys::spec_keyup_action(
                    *s,
                    long_at(entry, now, s.long_press_ms),
                    super::keys::job_held_in(keys, Modifier::Unequip),
                    cycle_held,
                );
                &&& h is NoHotkey ==> r.0 == unhandled() && r.1@.len() == 0 && *final(self) == *old(self)
                &&& !(h is NoHotkey) ==> final(self).keys.keys@ == keys
                &&& !(h is NoHotkey) && (h is Modifier || !keep) ==> r.0 == unhandled() && effects_view(r.1@)
                    == te && same_hud(*old(self), *final(self))
                &&& !(h is NoHotkey) && !(h is Modifier) && keep && !(st is Up) ==> r.0 == just_handled()
                    && effects_view(r.1@) == te && same_hud(*old(self), *final(self))
                &&& acts ==> effects_view(r.1@).len() > te.len() && effects_view(r.1@).subrange(0, te.len() + 1int)
                    == te.push(EffectView::ShowBriefly)
                &&& acts && h is Power && cycle_allowed(*s, cycle_held) ==> final(self).cycles.slot(CycleSlot::Power)
                    == cycle_after_press(old(self).cycles, old(self).visible, CycleSlot::Power, HudElement::Power)
                &&& acts && h is Utility && !(s.how_to_activate is Modifier && act_held) && cycle_allowed(
                    *s,
                    cycle_held,
                ) ==> r.0 == just_handled() && final(self).cycles.slot(CycleSlot::Utility) == cycle_after_press(
                    old(self).cycles,
                    old(self).visible,
                    CycleSlot::Utility,
                    HudElement::Utility,
                )
                &&& acts && (h is Power || h is Equipment || (h is Utility && !(s.how_to_activate is Modifier
                    && act_held))) && !cycle_allowed(*s, cycle_held) ==> r.0 == unhandled() && same_hud(
                    *old(self),
                    *final(self),
                )
                &&& acts && h is Equipment && cycle_allowed(*s, cycle_held) ==> r.0 == started(Action::Equipment)
                    && final(self).cycles.sets() == rotated(old(self).cycles.sets(), 1)
                &&& acts && (h is Activate || (h is Utility && s.how_to_activate is Modifier && act_held)) && (h
                    is Utility || s.how_to_activate is Hotkey) ==> r.0 == (KeyEventResponse {
                    handled: true,
                    start_timer: Action::NoAction,
                    stop_timer: Action::Utility,
                }) && same_hud(*old(self), *final(self))
                &&& acts && h is Activate && !(s.how_to_activate is Hotkey) ==> r.0 == unhandled() && same_hud(
                    *old(self),
                    *final(self),
                )
                &&& acts && h is UnequipHands && s.unarmed_handling is Hotkey ==> r.0 == stopped(Action::Right)
                    && final(self).visible.shown(HudElement::Left) == Some(unarmed_view())
                    && final(self).visible.shown(HudElement::Right) == Some(unarmed_view())
                &&& acts && h is UnequipHands && !(s.unarmed_handling is Hotkey) ==> r.0 == unhandled() && same_hud(
                    *old(self),
                    *final(self),
                )
                &&& acts && h is Refresh ==> r.0 == just_handled() && effects_view(r.1@) == te + seq![
                    EffectView::ShowBriefly,
                    EffectView::RefreshLayout,
                ] && same_hud(*old(self), *final(self))
                &&& acts && h is ShowHide ==> r.0 == just_handled() && final(self).cycles.hud_visible == (
                old(self).cycles.hud_visible != !s.autofade) && final(self).visible == old(self).visible
                    && effects_view(r.1@) == te.push(EffectView::ShowBriefly) + (if s.autofade {
                    Seq::<EffectView>::empty()
                } else {
                    seq![EffectView::StartFade(!old(self).cycles.hud_visible)]
                })
                &&& acts && (h is Left || h is Right) && ammo_instead(slot, req, *s, facts.ranged_equipped)
                    ==> same_hud(*old(self), *final(self))
                &&& acts && (h is Left || h is Right) && !ammo_instead(slot, req, *s, facts.ranged_equipped) ==> ({
                    &&& req is Advance ==> final(self).cycles.slot(slot) == old(self).hand_advance(
                        slot,
                        table.entries(),
                    ).mine && r.0 == old(self).hand_advance(slot, table.entries()).response
                    &&& req is Unequip ==> r.0 == stopped(hand_action(slot)) && final(self).visible.shown(
                        hand_element(slot),
                    ) == Some(unarmed_view())
                    &&& req is Match ==> r.0 == stopped(hand_action(slot))
                    &&& req is NoAction ==> r.0 == unhandled() && same_hud(*old(self), *final(self))
                })
            }),
            ({
                let h = super::keys::hotkey_for_key(key, *s);
                let prev = old(self).keys.entry(key);
                let keys = super::keys::recorded(old(self).keys.keys@, key, h, is_down, is_pressed, now);
                let entry = super::keys::event_entry(prev, key, h, is_down, is_pressed, now);
                let st = KeyState::from_button_spec(is_down, is_pressed);
                let te = timer_effects(s.spec_should_start_long_press_timer(h), st, h, s.long_press_ms);
                let acts = !(h is NoHotkey) && !(h is Modifier) && key_kept(prev, now, *s, h, false) && st is Up;
                let cycle_held = super::keys::job_held_in(keys, Modifier::Cycle);
                let act_held = super::keys::job_held_in(keys, Modifier::Activate);
                let slot = if h is Left {
                    CycleSlot::Left
                } else {
                    CycleSlot::Right
                };
                let req = super::keys::spec_keyup_action(
                    *s,
                    long_at(entry, now, s.long_press_ms),
                    super::keys::job_held_in(keys, Modifier::Unequip),
                    cycle_held,
                );
                let t = table.entries();
                let tail = effects_view(r.1@).skip(te.len() + 1int);
                let uses_item = h is Activate && s.how_to_activate is Hotkey || h is Utility && s.how_to_activate
                    is Modifier && act_held;
                &&& acts && h is Power && cycle_allowed(*s, cycle_held) ==> ({
                    &&& tail.len() == 0
                    &&& final(self).cycles.same_but(old(self).cycles, CycleSlot::Power)
                    &&& final(self).cycles.slot(CycleSlot::Power).len() > 0 ==> r.0 == started(Action::Power)
                        && final(self).visible.shown(HudElement::Power) == Some(
                        item_for(t, final(self).cycles.slot(CycleSlot::Power)[0]),
                    )
                    &&& final(self).cycles.slot(CycleSlot::Power).len() == 0 ==> r.0 == just_handled()
                        && final(self).visible.shown(HudElement::Power) == old(self).visible.shown(HudElement::Power)
                    &&& forall|o: HudElement| o != HudElement::Power ==> #[trigger] final(self).visible.shown(o)
                        == old(self).visible.shown(o)
                })
                &&& acts && h is Utility && !(s.how_to_activate is Modifier && act_held) && cycle_allowed(
                    *s,
                    cycle_held,
                ) ==> ({
                    &&& tail.len() == 0
                    &&& final(self).cycles.same_but(old(self).cycles, CycleSlot::Utility)
                    &&& final(self).cycles.slot(CycleSlot::Utility).len() > 0 ==> final(self).visible.shown(
                        HudElement::Utility,
                    ) == Some(item_for(t, final(self).cycles.slot(CycleSlot::Utility)[0]))
                    &&& final(self).cycles.slot(CycleSlot::Utility).len() == 0 ==> final(self).visible.shown(
                        HudElement::Utility,
                    ) == old(self).visible.shown(HudElement::Utility)
                    &&& forall|o: HudElement| o != HudElement::Utility ==> #[trigger] final(self).visible.shown(o)
                        == old(self).visible.shown(o)
                })
                &&& acts && h is Equipment && cycle_allowed(*s, cycle_held) ==> tail.len() == 0
                    && final(self).visible == old(self).visible && final(self).cycles.same_cycles(old(self).cycles)
                &&& acts && uses_item ==> tail == match first_of_slot(old(self).cycles, CycleSlot::Utility) {
                    Some(top) => opt_effects(utility_effect(item_for(t, top))),
                    None => Seq::<EffectView>::empty(),
                }
                &&& acts && h is UnequipHands && s.unarmed_handling is Hotkey ==> tail == seq![
                    EffectView::UnequipSlot(Action::Left),
                    EffectView::UnequipSlot(Action::Right),
                ]
                &&& acts && (h is Left || h is Right) && ammo_instead(slot, req, *s, facts.ranged_equipped) ==> ({
                    &&& facts.ammo@.len() < 2 ==> r.0 == unhandled() && tail.len() == 0
                    &&& facts.ammo@.len() >= 2 ==> r.0 == just_handled() && tail == seq![
                        EffectView::EquipAmmo(next_ammo(facts.equipped_ammo@, facts.ammo.deep_view())),
                    ]
                })
                &&& acts && (h is Left || h is Right) && !ammo_instead(slot, req, *s, facts.ranged_equipped) ==> ({
                    &&& req is Advance ==> advance_outcome(*old(self), *final(self), tail, slot, t)
                    &&& req is Unequip ==> tail == seq![EffectView::UnequipSlot(hand_action(slot))]
                        && final(self).cycles.slot(slot) == turned_to(old(self).cycles.slot(slot), "unarmed_proxy"@)
                        && final(self).cycles.same_but(old(self).cycles, slot)
                    &&& req is Match ==> final(self).cycles == old(self).cycles && match_outcome(
                        old(self).visible,
                        final(self).visible,
                        tail,
                        hand_action(slot),
                        held_in(*facts, slot),
                        t,
                    )
                    &&& req is NoAction ==> tail.len() == 0
                })
            }),
    {
        let hotkey = Hotkey::from_key(key, s);
        if matches!(hotkey, Hotkey::NoHotkey) {
            return (KeyEventResponse::default(), Vec::new());
        }
        let (keep, mut effects, entry) = self.update_tracked_key(key, hotkey, is_down, is_pressed, now, false, s);
        if matches!(hotkey, Hotkey::Modifier(_)) || !keep {
            return (KeyEventResponse::default(), effects);
        }
        let state = KeyState::from_button(is_down, is_pressed);
        if !matches!(state, KeyState::Up) {
            return (KeyEventResponse::handled(), effects);
        }
        effects.push(Effect::ShowBriefly);
        let ghost lead = effects@;
        let cycle_held = self.keys.modifier_pressed(Modifier::Cycle);
        let (r, mut more) = match hotkey {
            Hotkey::Power => (self.handle_cycle_power(s, cycle_held, table), Vec::new()),
            Hotkey::Utility => {
                let act_held = self.keys.modifier_pressed(Modifier::Activate);
                self.handle_cycle_utility(s, act_held, cycle_held, table)
            },
            Hotkey::Left | Hotkey::Right => {
                let slot = if matches!(hotkey, Hotkey::Left) {
                    CycleSlot::Left
                } else {
                    CycleSlot::Right
                };
                let long = entry.is_long_press(now, s.long_press_ms);
                let unequip_held = self.keys.modifier_pressed(Modifier::Unequip);
                self.handle_hand_key(slot, s, long, unequip_held, cycle_held, facts, table)
            },
            Hotkey::Equipment => (self.handle_cycle_equipset(s, cycle_held), Vec::new()),
            Hotkey::Activate => {
                if matches!(s.how_to_activate, ActivationMethod::Hotkey) {
                    self.use_utility_item(table)
                } else {
                    (KeyEventResponse::default(), Vec::new())
                }
            },
            Hotkey::UnequipHands => {
                if matches!(s.unarmed_handling, UnarmedMethod::Hotkey) {
                    self.disarm_player(table)
                } else {
                    (KeyEventResponse::default(), Vec::new())
                }
            },
            Hotkey::Refresh => {
                let mut v: Vec<Effect> = Vec::new();
                v.push(Effect::RefreshLayout);
                (KeyEventResponse::handled(), v)
            },
            Hotkey::ShowHide => (KeyEventResponse::handled(), self.show_or_hide(s.autofade)),
            _ => (KeyEventResponse::default(), Vec::new()),
        };
        let ghost tail = more@;
        effects.append(&mut more);
        proof {
            assert(effects@ == lead + tail);
            assert(effects_view(effects@) =~= effects_view(lead) + effects_view(tail));
            assert(effects_view(effects@).subrange(0, lead.len() as int) =~= effects_view(lead));
            assert(effects_view(effects@).skip(lead.len() as int) =~= effects_view(tail));
        }
        (r, effects)
    }
}

/// Whether an action is one of the long-press timers.
pub open spec fn is_long_press_timer(which: Action) -> bool {
    which is LongPressLeft || which is LongPressRight || which is LongPressPower || which is LongPressUtility
}

/// What a long press of the key behind timer `which` did, from `before` to
/// `after` with effects `fx` (see `Controller::handle_long_press`).
pub open spec fn long_press_outcome(
    before: Controller,
    after: Controller,
    fx: Seq<EffectView>,
    which: Action,
    s: KeySettings,
    facts: GameFacts,
    t: Seq<ItemView>,
) -> bool {
    &&& !is_long_press_timer(which) ==> fx.len() == 0 && after == before
    &&& (which is LongPressLeft || which is LongPressRight) ==> ({
            let slot = if which is LongPressLeft {
                CycleSlot::Left
            } else {
                CycleSlot::Right
            };
            let req = if which is LongPressLeft {
                Hotkey::Left.spec_long_press_action(s, facts.ranged_equipped)
            } else {
                Hotkey::Right.spec_long_press_action(s, facts.ranged_equipped)
            };
            &&& req is NoAction ==> fx.len() == 0 && after == before
            &&& !(req is NoAction) ==> fx.len() > 0 && fx.last() == EffectView::StopTimer(hand_action(slot))
            &&& req is Advance ==> after.cycles.slot(slot) == before.hand_advance(
                slot,
                t,
            ).mine
            &&& req is Unequip ==> after.visible.shown(hand_element(slot)) == Some(unarmed_view())
                && fx == seq![
                EffectView::UnequipSlot(hand_action(slot)),
                EffectView::StopTimer(hand_action(slot)),
            ] && after.cycles.slot(slot) == turned_to(before.cycles.slot(slot), "unarmed_proxy"@)
                && after.cycles.same_but(before.cycles, slot)
            &&& req is Advance ==> advance_outcome(
                before,
                after,
                fx.drop_last(),
                slot,
                t,
            )
            &&& req is Match ==> after.cycles == before.cycles && match_outcome(
                before.visible,
                after.visible,
                fx.drop_last(),
                hand_action(slot),
                held_in(facts, slot),
                t,
            )
            &&& req is AdvanceAmmo ==> after.visible == before.visible && after.cycles
                == before.cycles && fx.drop_last() == if facts.ammo@.len() < 2 {
                Seq::<EffectView>::empty()
            } else {
                seq![EffectView::EquipAmmo(next_ammo(facts.equipped_ammo@, facts.ammo.deep_view()))]
            }
        })
    &&& which is LongPressPower ==> ({
            let req = Hotkey::Power.spec_long_press_action(s, facts.ranged_equipped);
            &&& req is Advance ==> fx == seq![EffectView::StopTimer(Action::Power)]
                && after.cycles.slot(CycleSlot::Power) == cycle_after_press(
                before.cycles,
                before.visible,
                CycleSlot::Power,
                HudElement::Power,
            ) && after.cycles.same_but(before.cycles, CycleSlot::Power) && (after.cycles.slot(
                CycleSlot::Power,
            ).len() > 0 ==> after.visible.shown(HudElement::Power) == Some(
                item_for(t, after.cycles.slot(CycleSlot::Power)[0]),
            )) && (after.cycles.slot(CycleSlot::Power).len() == 0 ==> after.visible.shown(
                HudElement::Power,
            ) == before.visible.shown(HudElement::Power)) && (forall|o: HudElement|
                o != HudElement::Power ==> #[trigger] after.visible.shown(o) == before.visible.shown(o))
            &&& req is Unequip ==> fx == seq![
                EffectView::UnequipSlot(Action::Power),
                EffectView::StopTimer(Action::Power),
            ] && after == before
            &&& !(req is Advance || req is Unequip) ==> fx.len() == 0 && after == before
        })
    &&& which is LongPressUtility ==> ({
            let req = Hotkey::Utility.spec_long_press_action(s, facts.ranged_equipped);
            &&& req is Consume ==> fx == match first_of_slot(before.cycles, CycleSlot::Utility) {
                Some(top) => opt_effects(utility_effect(item_for(t, top))),
                None => Seq::<EffectView>::empty(),
            }.push(EffectView::StopTimer(Action::Utility)) && after == before
            &&& req is Advance ==> fx.len() > 0 && fx.last() == EffectView::StopTimer(Action::Utility)
            &&& req is Advance && s.how_to_activate is Modifier && before.keys.job_held(Modifier::Activate)
                ==> after == before && fx.drop_last() == match first_of_slot(
                before.cycles,
                CycleSlot::Utility,
            ) {
                Some(top) => opt_effects(utility_effect(item_for(t, top))),
                None => Seq::<EffectView>::empty(),
            }
            &&& req is Advance && !(s.how_to_activate is Modifier && before.keys.job_held(Modifier::Activate))
                ==> fx == seq![EffectView::StopTimer(Action::Utility)] && after == before
            &&& !(req is Advance || req is Consume) ==> fx.len() == 0 && after == before
        })
}

/// What a slot's equip timer did when its key was not held, from `before`
/// to `after` with effects `fx` (see `Controller::timer_expired`): an empty
/// slot or bare hands empty the slot in the game, the power slot equips its
/// shout, anything else is equipped in the slot, and a hand remembers a
/// one-handed item or bare hands.
pub open spec fn timer_outcome(before: Controller, after: Controller, fx: Seq<EffectView>, which: Action) -> bool {
    &&& after.visible == before.visible
    &&& match before.visible.shown(action_element(which)) {
            None => fx == seq![EffectView::UnequipSlot(which)]
                && after.left_hand_cached == before.left_hand_cached
                && after.right_hand_cached == before.right_hand_cached,
            Some(item) => if item.1 is HandToHand {
                &&& fx == seq![EffectView::UnequipSlot(which)]
                &&& which is Left ==> after.left_hand_cached@ == "unarmed_proxy"@
                    && after.right_hand_cached == before.right_hand_cached
                &&& !(which is Left) ==> after.right_hand_cached@ == "unarmed_proxy"@
                    && after.left_hand_cached == before.left_hand_cached
            } else if which is Power {
                &&& fx == seq![EffectView::EquipShout(item.0)]
                &&& after.left_hand_cached == before.left_hand_cached
                &&& after.right_hand_cached == before.right_hand_cached
            } else {
                &&& fx == opt_effects(equip_effect(item, which))
                &&& !item.1.spec_two_handed() && which is Left ==> after.left_hand_cached@
                    == item.0 && after.right_hand_cached == before.right_hand_cached
                &&& !item.1.spec_two_handed() && !(which is Left) ==> after.right_hand_cached@ == item.0 && after.left_hand_cached == before.left_hand_cached
                &&& item.1.spec_two_handed() ==> after.left_hand_cached == before.left_hand_cached && after.right_hand_cached == before.right_hand_cached
            },
        }
}

impl Controller {
    /// A long-press timer ran out while its key was still held: do what a
    /// long press of that key asks for (see `long_press_action`) and stop
    /// the key's own timer. The hands act as for a released hand key; the
    /// powers key advances its cycle or empties the power slot; the utility
    /// key uses the current item, or is handled as a press of the utility
    /// key. A long press that asks for nothing does nothing.
    pub fn handle_long_press(&mut self, which: Action, s: &KeySettings, facts: &GameFacts, table: &ItemTable) -> (r:
        Vec<Effect>)
        requires
            which is LongPressLeft && Hotkey::Left.spec_long_press_action(*s, facts.ranged_equipped) is Advance
                ==> old(self).hand_advance_ok(CycleSlot::Left),
            which is LongPressRight && Hotkey::Right.spec_long_press_action(*s, facts.ranged_equipped) is Advance
                ==> old(self).hand_advance_ok(CycleSlot::Right),
            which is LongPressPower && Hotkey::Power.spec_long_press_action(*s, facts.ranged_equipped) is Advance
                ==> rotation_allowed(old(self).cycles, old(self).visible, CycleSlot::Power, HudElement::Power),
            which is LongPressUtility && Hotkey::Utility.spec_long_press_action(*s, facts.ranged_equipped) is Advance
                && !(s.how_to_activate is Modifier && old(self).keys.job_held(Modifier::Activate)) && cycle_allowed(
                *s,
                old(self).keys.job_held(Modifier::Cycle),
            ) ==> rotation_allowed(old(self).cycles, old(self).visible, CycleSlot::Utility, HudElement::Utility),
        ensures
            final(self).keys == old(self).keys,
            long_press_outcome(*old(self), *final(self), effects_view(r@), which, *s, *facts, table.entries()),
    {
        let mut effects: Vec<Effect> = Vec::new();
        match which {
            Action::LongPressLeft | Action::LongPressRight => {
                let (hotkey, slot, hand) = if matches!(which, Action::LongPressLeft) {
                    (Hotkey::Left, CycleSlot::Left, Action::Left)
                } else {
                    (Hotkey::Right, CycleSlot::Right, Action::Right)
                };
                let req = hotkey.long_press_action(s, facts.ranged_equipped);
                if !matches!(req, RequestedAction::NoAction) {
                    let equipped = match slot {
                        CycleSlot::Left => facts.equipped_left.as_str(),
                        _ => facts.equipped_right.as_str(),
                    };
                    let (_, e) = self.do_hand_action(req, slot, equipped, facts.equipped_ammo.as_str(), &facts.ammo, table);
                    effects = e;
                    let ghost before = effects@;
                    effects.push(Effect::StopTimer(hand));
                    assert(effects_view(effects@) =~= effects_view(before).push(EffectView::StopTimer(hand)));
                    assert(effects_view(effects@).drop_last() =~= effects_view(before));
                }
            },
            Action::LongPressPower => {
                match Hotkey::Power.long_press_action(s, facts.ranged_equipped) {
                    RequestedAction::Advance => {
                        self.advance_cycle_power(table);
                        effects.push(Effect::StopTimer(Action::Power));
                        assert(effects_view(effects@) =~= seq![EffectView::StopTimer(Action::Power)]);
                    },
                    RequestedAction::Unequip => {
                        effects.push(Effect::UnequipSlot(Action::Power));
                        effects.push(Effect::StopTimer(Action::Power));
                        assert(effects_view(effects@) =~= seq![
                            EffectView::UnequipSlot(Action::Power),
                            EffectView::StopTimer(Action::Power),
                        ]);
                    },
                    _ => {},
                }
            },
            Action::LongPressUtility => {
                match Hotkey::Utility.long_press_action(s, facts.ranged_equipped) {
                    RequestedAction::Advance => {
                        let act_held = self.keys.modifier_pressed(Modifier::Activate);
                        let cycle_held = self.keys.modifier_pressed(Modifier::Cycle);
                        let (_, e) = self.handle_cycle_utility(s, act_held, cycle_held, table);
                        effects = e;
                        effects.push(Effect::StopTimer(Action::Utility));
                    },
                    RequestedAction::Consume => {
                        let (_, e) = self.use_utility_item(table);
                        effects = e;
                        let ghost before = effects@;
                        effects.push(Effect::StopTimer(Action::Utility));
                        assert(effects_view(effects@) =~= effects_view(before).push(
                            EffectView::StopTimer(Action::Utility),
                        ));
                    },
                    _ => {},
                }
            },
            _ => {},
        }
        proof {
            assert(effects_view(effects@).len() == effects@.len());
            if effects@.len() > 0 {
                assert(effects_view(effects@).last() == effects@.last()@);
            }
            let fx = effects_view(effects@);
            let t = table.entries();
            if which is LongPressLeft || which is LongPressRight {
                let slot = if which is LongPressLeft {
                    CycleSlot::Left
                } else {
                    CycleSlot::Right
                };
                let req = if which is LongPressLeft {
                    Hotkey::Left.spec_long_press_action(*s, facts.ranged_equipped)
                } else {
                    Hotkey::Right.spec_long_press_action(*s, facts.ranged_equipped)
                };
                assert(req is NoAction ==> fx.len() == 0 && *self == *old(self));
                assert(!(req is NoAction) ==> fx.len() > 0 && fx.last() == EffectView::StopTimer(hand_action(slot)));
                assert(req is Advance ==> self.cycles.slot(slot) == old(self).hand_advance(slot, t).mine);
                assert(req is Advance ==> advance_outcome(*old(self), *self, fx.drop_last(), slot, t));
                assert(req is Match ==> self.cycles == old(self).cycles);
                assert(req is Match ==> match_outcome(old(self).visible, self.visible, fx.drop_last(), hand_action(slot), held_in(*facts, slot), t));
                assert(req is AdvanceAmmo ==> self.visible == old(self).visible);
                assert(req is AdvanceAmmo ==> self.cycles == old(self).cycles);
                assert(req is AdvanceAmmo ==> fx.drop_last() == if facts.ammo@.len() < 2 {
                    Seq::<EffectView>::empty()
                } else {
                    seq![EffectView::EquipAmmo(next_ammo(facts.equipped_ammo@, facts.ammo.deep_view()))]
                });
                assert(req is Unequip ==> self.visible.shown(hand_element(slot)) == Some(unarmed_view()));
                assert(req is Unequip ==> fx == seq![
                    EffectView::UnequipSlot(hand_action(slot)),
                    EffectView::StopTimer(hand_action(slot)),
                ]);
                assert(req is Unequip ==> self.cycles.slot(slot) == turned_to(old(self).cycles.slot(slot), "unarmed_proxy"@));
                assert(req is Unequip ==> self.cycles.same_but(old(self).cycles, slot));
                assert(long_press_outcome(*old(self), *self, fx, which, *s, *facts, t));
            } else if which is LongPressPower {
                assert(long_press_outcome(*old(self), *self, fx, which, *s, *facts, t));
            } else if which is LongPressUtility {
                let req = Hotkey::Utility.spec_long_press_action(*s, facts.ranged_equipped);
                let held = s.how_to_activate is Modifier && old(self).keys.job_held(Modifier::Activate);
                let used = match first_of_slot(old(self).cycles, CycleSlot::Utility) {
                    Some(top) => opt_effects(utility_effect(item_for(t, top))),
                    None => Seq::<EffectView>::empty(),
                };
                assert(req is Consume ==> fx == used.push(EffectView::StopTimer(Action::Utility)) && *self == *old(self));
                assert(req is Advance ==> fx.len() > 0 && fx.last() == EffectView::StopTimer(Action::Utility));
                assert(req is Advance && held ==> *self == *old(self));
                assert(req is Advance && held ==> fx.drop_last() == used);
                assert(req is Advance && !held ==> fx == seq![EffectView::StopTimer(Action::Utility)]);
                assert(req is Advance && !held ==> *self == *old(self));
                assert(long_press_outcome(*old(self), *self, fx, which, *s, *facts, t));
            } else {
                assert(long_press_outcome(*old(self), *self, fx, which, *s, *facts, t));
            }
        }
        effects
    }

    /// A timer ran out: a long-press timer is handled by `handle_long_press`;
    /// any other timer equips what its slot shows (see `timer_expired`),
    /// unless its key is still held.
    pub fn timer_fired(
        &mut self,
        which: Action,
        s: &KeySettings,
        unequip_empty: bool,
        facts: &GameFacts,
        table: &ItemTable,
    ) -> (r: Vec<Effect>)
        requires
            which is LongPressLeft && Hotkey::Left.spec_long_press_action(*s, facts.ranged_equipped) is Advance
                ==> old(self).hand_advance_ok(CycleSlot::Left),
            which is LongPressRight && Hotkey::Right.spec_long_press_action(*s, facts.ranged_equipped) is Advance
                ==> old(self).hand_advance_ok(CycleSlot::Right),
            which is LongPressPower && Hotkey::Power.spec_long_press_action(*s, facts.ranged_equipped) is Advance
                ==> rotation_allowed(old(self).cycles, old(self).visible, CycleSlot::Power, HudElement::Power),
            which is LongPressUtility && Hotkey::Utility.spec_long_press_action(*s, facts.ranged_equipped) is Advance
                && !(s.how_to_activate is Modifier && old(self).keys.job_held(Modifier::Activate)) && cycle_allowed(
                *s,
                old(self).keys.job_held(Modifier::Cycle),
            ) ==> rotation_allowed(old(self).cycles, old(self).visible, CycleSlot::Utility, HudElement::Utility),
        ensures
            final(self).keys == old(self).keys,
            ({
                let t = old(self).keys.for_hotkey(Hotkey::spec_from_action(which));
                let held = t.state is Pressed || t.state is Down;
                &&& !is_long_press_timer(which) && held ==> r@.len() == 0 && *final(self) == *old(self)
                &&& !is_long_press_timer(which) && !held && which is Equipment ==> effects_view(r@)
                    == set_equip_effects(old(self).cycles, unequip_empty) && final(self).cycles == old(self).cycles && set_shown(
                    old(self).visible,
                    final(self).visible,
                    old(self).cycles,
                )
                &&& !is_long_press_timer(which) && !held && !(which is Equipment) ==> final(self).cycles
                    == old(self).cycles && timer_outcome(*old(self), *final(self), effects_view(r@), which)
                &&& is_long_press_timer(which) ==> long_press_outcome(
                    *old(self),
                    *final(self),
                    effects_view(r@),
                    which,
                    *s,
                    *facts,
                    table.entries(),
                )
            }),
    {
        if matches!(
            which,
            Action::LongPressLeft | Action::LongPressRight | Action::LongPressPower | Action::LongPressUtility
        ) {
            return self.handle_long_press(which, s, facts, table);
        }
        let hotkey = Hotkey::from_action(&which);
        let held = self.keys.get_tracked_key(&hotkey).is_pressed();
        self.timer_expired(which, held, unequip_empty, table)
    }

    /// A key event in a menu: records the key (without long-press timers)
    /// and says whether a cycle key going down toggles the item under the
    /// cursor: always when toggling by hotkey, on a long press when toggling
    /// by long press, with the menu modifier held when toggling by modifier.
    pub fn handle_menu_event(&mut self, key: u32, is_down: bool, is_pressed: bool, now: u64, s: &KeySettings) -> (r:
        bool)
        ensures
            ({
                let h = super::keys::hotkey_for_key(key, *s);
                let keys = super::keys::recorded(old(self).keys.keys@, key, h, is_down, is_pressed, now);
                let entry = super::keys::event_entry(old(self).keys.entry(key), key, h, is_down, is_pressed, now);
                &&& h is NoHotkey ==> !r && final(self).keys == old(self).keys
                &&& !(h is NoHotkey) ==> final(self).keys.keys@ == keys
                &&& r == (!(h is NoHotkey) && (h is Left || h is Power || h is Right || h is Utility
                    || h is Equipment) && is_down && match s.how_to_toggle {
                    ActivationMethod::Hotkey => true,
                    ActivationMethod::LongPress => long_at(entry, now, s.long_press_ms),
                    ActivationMethod::Modifier => super::keys::job_held_in(keys, Modifier::Menu),
                })
            }),
            same_hud(*old(self), *final(self)),
    {
        let hotkey = Hotkey::from_key(key, s);
        if matches!(hotkey, Hotkey::NoHotkey) {
            return false;
        }
        let (_, _, entry) = self.update_tracked_key(key, hotkey, is_down, is_pressed, now, true, s);
        let cycle_key = matches!(
            hotkey,
            Hotkey::Left | Hotkey::Power | Hotkey::Right | Hotkey::Utility | Hotkey::Equipment
        );
        if !cycle_key || !is_down {
            return false;
        }
        match s.how_to_toggle {
            ActivationMethod::Hotkey => true,
            ActivationMethod::LongPress => entry.is_long_press(now, s.long_press_ms),
            ActivationMethod::Modifier => self.keys.modifier_pressed(Modifier::Menu),
        }
    }
}

/// The utility slot after an inventory count changed: the shown item takes
/// the new count when it is the item that changed, and the potion groups
/// take the counts of their potions.
pub open spec fn utility_recount(
    u: Option<ItemView>,
    f: Seq<char>,
    count: u32,
    health: u32,
    magicka: u32,
    stamina: u32,
) -> Option<ItemView> {
    match u {
        Some(v) => if v.0 == f {
            recount(u, count)
        } else if v.0 == "health_proxy"@ {
            recount(u, health)
        } else if v.0 == "magicka_proxy"@ {
            recount(u, magicka)
        } else if v.0 == "stamina_proxy"@ {
            recount(u, stamina)
        } else {
            u
        },
        None => None,
    }
}

/// A hand slot after an inventory count changed: recounted when it shows the item.
pub open spec fn hand_recount(o: Option<ItemView>, f: Seq<char>, count: u32) -> Option<ItemView> {
    if o matches Some(v) && v.0 == f {
        recount(o, count)
    } else {
        o
    }
}

/// The hands after one hand advanced by plan `p`: its cycle and the other
/// hand's cycle are the plan's, and each slot shows what the plan shows
/// there, else what it showed.
pub open spec fn applied(h: Hands, which: CycleSlot, p: HandAdvance) -> Hands {
    let mine_shown = match p.show_mine {
        Some(x) => Some(x),
        None => h.shown(which),
    };
    let other_shown = match p.show_other {
        Some(x) => Some(x),
        None => h.shown(other_hand(which)),
    };
    if which is Left {
        Hands {
            left: p.mine,
            right: p.other,
            shown_left: mine_shown,
            shown_right: other_shown,
            two_hander: h.two_hander,
            left_cached: h.left_cached,
            right_cached: h.right_cached,
            alt_grip: h.alt_grip,
        }
    } else {
        Hands {
            left: p.other,
            right: p.mine,
            shown_left: other_shown,
            shown_right: mine_shown,
            two_hander: h.two_hander,
            left_cached: h.left_cached,
            right_cached: h.right_cached,
            alt_grip: h.alt_grip,
        }
    }
}

/// The hands with a hand's slot showing its item with a count of zero.
pub open spec fn emptied(h: Hands, which: CycleSlot) -> Hands {
    if which is Left {
        Hands {
            left: h.left,
            right: h.right,
            shown_left: recount(h.shown_left, 0),
            shown_right: h.shown_right,
            two_hander: h.two_hander,
            left_cached: h.left_cached,
            right_cached: h.right_cached,
            alt_grip: h.alt_grip,
        }
    } else {
        Hands {
            left: h.left,
            right: h.right,
            shown_left: h.shown_left,
            shown_right: recount(h.shown_right, 0),
            two_hander: h.two_hander,
            left_cached: h.left_cached,
            right_cached: h.right_cached,
            alt_grip: h.alt_grip,
        }
    }
}

/// A hand whose slot shows item `f`, which ran out: the slot shows it with
/// a count of zero and the hand's cycle advances (see `hands_advance`); a
/// hand that shows something else stays as it is. The flag says whether
/// the advance was refused with a sound.
pub open spec fn hand_ran_out(h: Hands, which: CycleSlot, f: Seq<char>, t: Seq<ItemView>) -> (Hands, bool) {
    if h.shown(which) matches Some(v) && v.0 == f {
        let plan = hands_advance(emptied(h, which), which, t);
        (applied(emptied(h, which), which, plan), plan.honk)
    } else {
        (h, false)
    }
}

/// The hands after item `f` ran out: the left hand first, then the right.
pub open spec fn hands_ran_out(h: Hands, f: Seq<char>, t: Seq<ItemView>) -> Hands {
    hand_ran_out(hand_ran_out(h, CycleSlot::Left, f, t).0, CycleSlot::Right, f, t).0
}

/// The refusal sounds of the two hands after item `f` ran out.
pub open spec fn ran_out_honks(h: Hands, f: Seq<char>, t: Seq<ItemView>) -> Seq<EffectView> {
    let (h1, left_honk) = hand_ran_out(h, CycleSlot::Left, f, t);
    let right_honk = hand_ran_out(h1, CycleSlot::Right, f, t).1;
    (if left_honk {
        seq![EffectView::Honk]
    } else {
        Seq::<EffectView>::empty()
    }) + (if right_honk {
        seq![EffectView::Honk]
    } else {
        Seq::<EffectView>::empty()
    })
}

/// The hands after item `f` of kind `kind` left the hand cycles whose hand
/// takes the kind.
pub open spec fn hands_dropped(h: Hands, f: Seq<char>, kind: BaseType) -> Hands {
    Hands {
        left: super::cycles::dropped_if(h.left, f, kind.spec_left_hand_ok()),
        right: super::cycles::dropped_if(h.right, f, kind.spec_right_hand_ok()),
        shown_left: h.shown_left,
        shown_right: h.shown_right,
        two_hander: h.two_hander,
        left_cached: h.left_cached,
        right_cached: h.right_cached,
        alt_grip: h.alt_grip,
    }
}

/// After item `f` of kind `kind` ran out, a hand that takes the kind and
/// still shows the item equips the top of its cycle, when it has one.
pub open spec fn rearm_effects(h: Hands, kind: BaseType, f: Seq<char>, t: Seq<ItemView>) -> Seq<EffectView> {
    let left = if kind.spec_left_hand_ok() && (h.shown_left matches Some(v) && v.0 == f) && h.left.len() > 0 {
        opt_effects(equip_effect(item_for(t, h.left[0]), Action::Left))
    } else {
        Seq::<EffectView>::empty()
    };
    let right = if kind.spec_right_hand_ok() && (h.shown_right matches Some(v) && v.0 == f) && h.right.len() > 0 {
        opt_effects(equip_effect(item_for(t, h.right[0]), Action::Right))
    } else {
        Seq::<EffectView>::empty()
    };
    left + right
}

impl Controller {
    /// What the left slot shows after its cycle advanced for an item whose
    /// count went to zero.
    pub open spec fn left_after_advance(self, t: Seq<ItemView>) -> ItemView {
        match self.hand_advance(CycleSlot::Left, t).show_mine {
            Some(x) => x,
            None => {
                let v = self.visible.shown(HudElement::Left)->0;
                (v.0, v.1, 0)
            },
        }
    }

    /// Whether `handle_inventory_changed` may take this change: a hand whose
    /// item ran out must be able to advance its cycle. When both hands show
    /// the item, this asks more of the right hand than the requirement does:
    /// a two-hander or a non-empty right cycle.
    pub fn inventory_change_allowed(&self, kind: &Option<BaseType>, form_spec: &str, new_count: u32) -> (r: bool)
        ensures
            ({
                let gone = kind matches Some(k) && !(k is Ammo) && !k.spec_is_utility() && new_count == 0;
                let in_left = shows(self.visible, HudElement::Left, form_spec@);
                let in_right = shows(self.visible, HudElement::Right, form_spec@);
                let left_ok = gone && in_left ==> self.hand_advance_ok(CycleSlot::Left);
                let right_ok = gone && in_right ==> self.two_hander_equipped || self.cycles.slot(
                    CycleSlot::Right,
                ).len() > 0 || (self.visible.shown(HudElement::Left) matches Some(oe) && single(oe));
                let right_both = gone && in_right ==> self.two_hander_equipped || self.cycles.slot(
                    CycleSlot::Right,
                ).len() > 0;
                &&& !in_left ==> r == (left_ok && right_ok)
                &&& in_left ==> r == (left_ok && right_both)
            }),
    {
        let gone = match kind {
            Some(k) => !matches!(k, BaseType::Ammo(_)) && !k.is_utility() && new_count == 0,
            None => false,
        };
        if !gone {
            return true;
        }
        let in_left = match self.visible.get(HudElement::Left) {
            Some(v) => same_text(v.form_string.as_str(), form_spec),
            None => false,
        };
        let in_right = match self.visible.get(HudElement::Right) {
            Some(v) => same_text(v.form_string.as_str(), form_spec),
            None => false,
        };
        let left_ok = !in_left || self.hand_advance_allowed(CycleSlot::Left);
        let right_base = self.two_hander_equipped || self.cycles.cycle_len(&CycleSlot::Right) > 0;
        let left_single = match self.visible.get(HudElement::Left) {
            Some(oe) => oe.kind.count_matters() && oe.count <= 1,
            None => false,
        };
        let right_ok = !in_right || right_base || (!in_left && left_single);
        left_ok && right_ok
    }

    /// The inventory count of item `form_spec` changed to `new_count`;
    /// `kind` is its kind when the item is known, and `health`, `magicka`
    /// and `stamina` the potion counts of the three potion groups. Slots
    /// showing the item take the new count (the utility slot also refreshes
    /// a potion group it shows); a hand whose item ran out advances its
    /// cycle. When the count reached zero, the item leaves the cycles as
    /// `remove_zero_count_items` says, the utility slot shows the new top of
    /// its cycle in its place, and a hand still showing it equips the top of
    /// its cycle.
    #[verifier::rlimit(60)]
    pub fn handle_inventory_changed(
        &mut self,
        kind: &Option<BaseType>,
        form_spec: &str,
        new_count: u32,
        health: u32,
        magicka: u32,
        stamina: u32,
        table: &ItemTable,
    ) -> (r: Vec<Effect>)
        requires
            kind matches Some(k) && !(k is Ammo) && !k.spec_is_utility() && new_count == 0 && shows(
                old(self).visible,
                HudElement::Left,
                form_spec@,
            ) ==> old(self).hand_advance_ok(CycleSlot::Left),
            kind matches Some(k) && !(k is Ammo) && !k.spec_is_utility() && new_count == 0 && shows(
                old(self).visible,
                HudElement::Right,
                form_spec@,
            ) ==> old(self).two_hander_equipped || old(self).cycles.slot(CycleSlot::Right).len() > 0 || (if shows(
                old(self).visible,
                HudElement::Left,
                form_spec@,
            ) {
                single(old(self).left_after_advance(table.entries()))
            } else {
                old(self).visible.shown(HudElement::Left) matches Some(oe) && single(oe)
            }),
        ensures
            final(self).keys == old(self).keys,
            final(self).two_hander_equipped == old(self).two_hander_equipped,
            final(self).cgo_alt_grip == old(self).cgo_alt_grip,
            final(self).cycles.hud_visible == old(self).cycles.hud_visible,
            final(self).cycles.loaded == old(self).cycles.loaded,
            kind is None ==> r@.len() == 0 && *final(self) == *old(self),
            kind matches Some(k) && k is Ammo ==> ({
                &&& r@.len() == 0
                &&& final(self).cycles == old(self).cycles
                &&& final(self).left_hand_cached == old(self).left_hand_cached
                &&& final(self).right_hand_cached == old(self).right_hand_cached
                &&& final(self).visible.shown(HudElement::Ammo) == hand_recount(
                    old(self).visible.shown(HudElement::Ammo),
                    form_spec@,
                    new_count,
                )
                &&& forall|o: HudElement| o != HudElement::Ammo ==> #[trigger] final(self).visible.shown(o)
                    == old(self).visible.shown(o)
            }),
            kind matches Some(k) && !(k is Ammo) && k.spec_is_utility() ==> ({
                let u1 = utility_recount(
                    old(self).visible.shown(HudElement::Utility),
                    form_spec@,
                    new_count,
                    health,
                    magicka,
                    stamina,
                );
                let c1 = super::cycleentries::without_id::<String>(
                    old(self).cycles.slot(CycleSlot::Utility),
                    form_spec@,
                );
                &&& r@.len() == 0
                &&& final(self).left_hand_cached == old(self).left_hand_cached
                &&& final(self).right_hand_cached == old(self).right_hand_cached
                &&& forall|o: HudElement| o != HudElement::Utility ==> #[trigger] final(self).visible.shown(o)
                    == old(self).visible.shown(o)
                &&& new_count > 0 ==> final(self).cycles == old(self).cycles && final(self).visible.shown(
                    HudElement::Utility,
                ) == u1
                &&& new_count == 0 ==> final(self).cycles.slot(CycleSlot::Utility) == c1
                    && final(self).cycles.same_but(old(self).cycles, CycleSlot::Utility)
                    && final(self).visible.shown(HudElement::Utility) == if u1 matches Some(v) && v.0
                    == form_spec@ && c1.len() > 0 {
                    Some(item_for(table.entries(), c1[0]))
                } else {
                    u1
                }
            }),
            kind matches Some(k) && !(k is Ammo) && !k.spec_is_utility() && new_count > 0 ==> ({
                &&& r@.len() == 0
                &&& final(self).cycles == old(self).cycles
                &&& final(self).left_hand_cached == old(self).left_hand_cached
                &&& final(self).right_hand_cached == old(self).right_hand_cached
                &&& final(self).visible.shown(HudElement::Left) == hand_recount(
                    old(self).visible.shown(HudElement::Left),
                    form_spec@,
                    new_count,
                )
                &&& final(self).visible.shown(HudElement::Right) == hand_recount(
                    old(self).visible.shown(HudElement::Right),
                    form_spec@,
                    new_count,
                )
                &&& forall|o: HudElement| o != HudElement::Left && o != HudElement::Right
                    ==> #[trigger] final(self).visible.shown(o) == old(self).visible.shown(o)
            }),
            kind matches Some(k) && !(k is Ammo) && !k.spec_is_utility() && new_count == 0 ==> ({
                let after = hands_dropped(
                    hands_ran_out(old(self).hands(), form_spec@, table.entries()),
                    form_spec@,
                    kind->0,
                );
                &&& final(self).cycles.slot(CycleSlot::Power) == old(self).cycles.slot(CycleSlot::Power)
                &&& final(self).cycles.sets() == old(self).cycles.sets()
                &&& final(self).cycles.slot(CycleSlot::Utility) == old(self).cycles.slot(CycleSlot::Utility)
                &&& !shows(old(self).visible, HudElement::Left, form_spec@) && !shows(
                    old(self).visible,
                    HudElement::Right,
                    form_spec@,
                ) ==> r@.len() == 0 && final(self).visible == old(self).visible
                &&& forall|o: HudElement| o != HudElement::Left && o != HudElement::Right
                    ==> #[trigger] final(self).visible.shown(o) == old(self).visible.shown(o)
                &&& final(self).hands() == after
                &&& effects_view(r@) == ran_out_honks(old(self).hands(), form_spec@, table.entries())
                    + rearm_effects(after, kind->0, form_spec@, table.entries())
            }),
    {
        let mut effects: Vec<Effect> = Vec::new();
        let kind = match kind {
            Some(k) => k,
            None => {
                return effects;
            },
        };
        if kind.is_ammo() {
            let shown = self.visible.spec_in(HudElement::Ammo);
            if self.visible.ammo.is_some() && same_text(shown.as_str(), form_spec) {
                self.visible.set_count(HudElement::Ammo, new_count);
            }
            return effects;
        } else if kind.is_utility() {
            match self.visible.get(HudElement::Utility) {
                Some(v) => {
                    let shown = v.form_string.as_str();
                    if same_text(shown, form_spec) {
                        self.visible.set_count(HudElement::Utility, new_count);
                    } else if same_text(shown, "health_proxy") {
                        self.visible.set_count(HudElement::Utility, health);
                    } else if same_text(shown, "magicka_proxy") {
                        self.visible.set_count(HudElement::Utility, magicka);
                    } else if same_text(shown, "stamina_proxy") {
                        self.visible.set_count(HudElement::Utility, stamina);
                    }
                },
                None => {},
            }
        } else if new_count == 0 {
            let ghost h0 = self.hands();
            let ghost t = table.entries();
            let mut e = self.hand_item_ran_out(CycleSlot::Left, form_spec, table);
            let ghost first = e@;
            effects.append(&mut e);
            let mut e = self.hand_item_ran_out(CycleSlot::Right, form_spec, table);
            let ghost second = e@;
            effects.append(&mut e);
            proof {
                assert(effects@ =~= first + second);
                assert(effects_view(effects@) =~= effects_view(first) + effects_view(second));
                assert(effects_view(effects@) == ran_out_honks(h0, form_spec@, t));
                assert(self.hands() == hands_ran_out(h0, form_spec@, t));
            }
        } else {
            let left_spec = self.visible.spec_in(HudElement::Left);
            if self.visible.left.is_some() && same_text(left_spec.as_str(), form_spec) {
                self.visible.set_count(HudElement::Left, new_count);
            }
            let right_spec = self.visible.spec_in(HudElement::Right);
            if self.visible.right.is_some() && same_text(right_spec.as_str(), form_spec) {
                self.visible.set_count(HudElement::Right, new_count);
            }
        }
        if new_count > 0 {
            return effects;
        }
        self.cycles.remove_zero_count_items(form_spec, kind, new_count);
        proof {
            crate::data::base::lemma_hand_items_are_not_utility(*kind);
        }
        if kind.is_utility() {
            let shown = self.visible.spec_in(HudElement::Utility);
            if self.visible.utility.is_some() && same_text(shown.as_str(), form_spec) {
                match self.cycles.get_top(&CycleSlot::Utility) {
                    Some(top) => {
                        let item = table.get(top.as_str());
                        self.visible.update_slot(HudElement::Utility, item);
                    },
                    None => {},
                }
            }
        }
        let ghost lead = effects@;
        let mut e = self.rearm_hands(kind, form_spec, table);
        let ghost tail = e@;
        effects.append(&mut e);
        proof {
            assert(effects@ =~= lead + tail);
            assert(effects_view(effects@) =~= effects_view(lead) + effects_view(tail));
        }
        effects
    }

    /// Hand `which` when item `f` ran out: if its slot shows the item, the
    /// slot shows it with a count of zero and the hand's cycle advances.
    fn hand_item_ran_out(&mut self, which: CycleSlot, f: &str, table: &ItemTable) -> (r: Vec<Effect>)
        requires
            which is Left || which is Right,
            shows(old(self).visible, hand_element(which), f@) ==> old(self).hand_advance_ok(which),
        ensures
            final(self).hands() == hand_ran_out(old(self).hands(), which, f@, table.entries()).0,
            !shows(old(self).visible, hand_element(which), f@) ==> *final(self) == *old(self) && r@.len() == 0,
            effects_view(r@) == if hand_ran_out(old(self).hands(), which, f@, table.entries()).1 {
                seq![EffectView::Honk]
            } else {
                Seq::<EffectView>::empty()
            },
            forall|o: HudElement| o != HudElement::Left && o != HudElement::Right ==> #[trigger] final(self).visible.shown(o) == old(self).visible.shown(o),
            final(self).cycles.slot(CycleSlot::Power) == old(self).cycles.slot(CycleSlot::Power),
            final(self).cycles.slot(CycleSlot::Utility) == old(self).cycles.slot(CycleSlot::Utility),
            final(self).cycles.sets() == old(self).cycles.sets(),
            final(self).cycles.hud_visible == old(self).cycles.hud_visible,
            final(self).cycles.loaded == old(self).cycles.loaded,
            final(self).two_hander_equipped == old(self).two_hander_equipped,
            final(self).left_hand_cached == old(self).left_hand_cached,
            final(self).right_hand_cached == old(self).right_hand_cached,
            final(self).cgo_alt_grip == old(self).cgo_alt_grip,
            final(self).keys == old(self).keys,
    {
        let e = if matches!(which, CycleSlot::Left) {
            HudElement::Left
        } else {
            HudElement::Right
        };
        let shown = self.visible.spec_in(e);
        let present = match e {
            HudElement::Left => self.visible.left.is_some(),
            _ => self.visible.right.is_some(),
        };
        if !(present && same_text(shown.as_str(), f)) {
            let r: Vec<Effect> = Vec::new();
            assert(effects_view(r@) =~= Seq::<EffectView>::empty());
            return r;
        }
        let ghost h0 = self.hands();
        self.visible.set_count(e, 0);
        assert(self.hands() == emptied(h0, which));
        assert(self.hand_advance(which, table.entries()) == hands_advance(emptied(h0, which), which, table.entries()));
        let (_, r) = self.advance_hand_cycle(which, table);
        r
    }

    /// After item `f` of kind `kind` ran out: a hand that takes the kind and
    /// still shows the item equips the top of its cycle, when it has one.
    fn rearm_hands(&self, kind: &BaseType, f: &str, table: &ItemTable) -> (r: Vec<Effect>)
        ensures
            effects_view(r@) == rearm_effects(self.hands(), *kind, f@, table.entries()),
    {
        let mut effects: Vec<Effect> = Vec::new();
        if kind.left_hand_ok() {
            let shown = self.visible.spec_in(HudElement::Left);
            if self.visible.left.is_some() && same_text(shown.as_str(), f) {
                match self.cycles.get_top(&CycleSlot::Left) {
                    Some(top) => {
                        let item = table.get(top.as_str());
                        effects = equip_item(&item, Action::Left);
                    },
                    None => {},
                }
            }
        }
        let ghost lead = effects@;
        if kind.right_hand_ok() {
            let shown = self.visible.spec_in(HudElement::Right);
            if self.visible.right.is_some() && same_text(shown.as_str(), f) {
                match self.cycles.get_top(&CycleSlot::Right) {
                    Some(top) => {
                        let item = table.get(top.as_str());
                        let mut e = equip_item(&item, Action::Right);
                        effects.append(&mut e);
                    },
                    None => {},
                }
            }
        }
        assert(effects_view(effects@) =~= effects_view(lead) + effects_view(effects@.skip(lead.len() as int)));
        effects
    }
}

/// The predicate "the table gives the item a kind other than `unwanted`".
pub open spec fn kind_differs(t: Seq<ItemView>, unwanted: BaseType) -> spec_fn(Seq<char>) -> bool {
    |f: Seq<char>| item_for(t, f).1 != unwanted
}

/// Keep the entries of a cycle whose kind, by the table, is not `unwanted`.
fn keep_kinds(cycle: &mut Vec<String>, unwanted: &BaseType, table: &ItemTable)
    ensures
        entry_views(final(cycle)@) == entry_views(old(cycle)@).filter(kind_differs(table.entries(), *unwanted)),
{
    let ghost s = entry_views(cycle@);
    let ghost p = kind_differs(table.entries(), *unwanted);
    let mut out: Vec<String> = Vec::new();
    let mut i: usize = 0;
    while i < cycle.len()
        invariant
            i <= cycle@.len(),
            s == entry_views(cycle@),
            p == kind_differs(table.entries(), *unwanted),
            entry_views(out@) == s.take(i as int).filter(p),
        decreases cycle.len() - i,
    {
        proof {
            reveal(Seq::filter);
            assert(s.take(i + 1).drop_last() =~= s.take(i as int));
            assert(s.take(i + 1).last() == cycle@[i as int]@);
        }
        let ghost before = entry_views(out@);
        let item = table.get(cycle[i].as_str());
        if item.kind != *unwanted {
            out.push(cycle[i].clone());
            assert(entry_views(out@) =~= before.push(cycle@[i as int]@));
        }
        i += 1;
    }
    assert(s.take(cycle.len() as int) =~= s);
    *cycle = out;
}

/// The utility cycle after the potion settings are applied: with grouped
/// potions, the stamina, health and magicka potions in turn give way to
/// their group's stand-in; otherwise the stand-ins leave.
pub open spec fn grouped_utility(u: Seq<Seq<char>>, group: bool, t: Seq<ItemView>) -> Seq<Seq<char>> {
    if group {
        let u1 = with_entry(u.filter(kind_differs(t, BaseType::Potion(PotionType::Stamina))), "stamina_proxy"@);
        let u2 = with_entry(u1.filter(kind_differs(t, BaseType::Potion(PotionType::Health))), "health_proxy"@);
        with_entry(u2.filter(kind_differs(t, BaseType::Potion(PotionType::Magicka))), "magicka_proxy"@)
    } else {
        u.filter(differs_from("stamina_proxy"@)).filter(differs_from("health_proxy"@)).filter(
            differs_from("magicka_proxy"@),
        )
    }
}

/// A hand cycle after the unarmed setting is applied: bare hands join it
/// when they belong in the cycles, and leave it otherwise.
pub open spec fn unarmed_cycle(s: Seq<Seq<char>>, unarmed: UnarmedMethod, t: Seq<ItemView>) -> Seq<Seq<char>> {
    if unarmed is AddToCycles {
        with_entry(s, "unarmed_proxy"@)
    } else {
        s.filter(kind_differs(t, BaseType::HandToHand))
    }
}

impl Controller {
    /// Remove the entries of a cycle whose kind, by the table, is `unwanted`.
    pub fn filter_kind(&mut self, which: CycleSlot, unwanted: &BaseType, table: &ItemTable)
        ensures
            final(self).cycles.slot(which) == old(self).cycles.slot(which).filter(
                kind_differs(table.entries(), *unwanted),
            ),
            final(self).cycles.same_but(old(self).cycles, which),
            final(self).visible == old(self).visible,
            final(self).two_hander_equipped == old(self).two_hander_equipped,
            final(self).left_hand_cached == old(self).left_hand_cached,
            final(self).right_hand_cached == old(self).right_hand_cached,
            final(self).cgo_alt_grip == old(self).cgo_alt_grip,
            final(self).keys == old(self).keys,
    {
        match which {
            CycleSlot::Power => keep_kinds(&mut self.cycles.power, unwanted, table),
            CycleSlot::Left => keep_kinds(&mut self.cycles.left, unwanted, table),
            CycleSlot::Right => keep_kinds(&mut self.cycles.right, unwanted, table),
            CycleSlot::Utility => keep_kinds(&mut self.cycles.utility, unwanted, table),
        }
    }

    /// Enforce the settings after they are read: bare hands join or leave
    /// the hand cycles by the unarmed setting, the potion groups replace or
    /// give way to single potions by the grouping setting; without autofade
    /// the HUD fades to its visibility; and the layout is read again.
    pub fn apply_settings(
        &mut self,
        unarmed: UnarmedMethod,
        group_potions: bool,
        autofade: bool,
        table: &ItemTable,
    ) -> (r: Vec<Effect>)
        ensures
            effects_view(r@) == (if autofade {
                Seq::<EffectView>::empty()
            } else {
                seq![EffectView::StartFade(old(self).cycles.hud_visible)]
            }).push(EffectView::RefreshLayout),
            final(self).cycles.slot(CycleSlot::Left) == unarmed_cycle(
                old(self).cycles.slot(CycleSlot::Left),
                unarmed,
                table.entries(),
            ),
            final(self).cycles.slot(CycleSlot::Right) == unarmed_cycle(
                old(self).cycles.slot(CycleSlot::Right),
                unarmed,
                table.entries(),
            ),
            final(self).cycles.slot(CycleSlot::Utility) == grouped_utility(
                old(self).cycles.slot(CycleSlot::Utility),
                group_potions,
                table.entries(),
            ),
            final(self).cycles.slot(CycleSlot::Power) == old(self).cycles.slot(CycleSlot::Power),
            final(self).cycles.sets() == old(self).cycles.sets(),
            final(self).cycles.hud_visible == old(self).cycles.hud_visible,
            final(self).visible == old(self).visible,
            final(self).two_hander_equipped == old(self).two_hander_equipped,
            final(self).left_hand_cached == old(self).left_hand_cached,
            final(self).right_hand_cached == old(self).right_hand_cached,
            final(self).cgo_alt_grip == old(self).cgo_alt_grip,
            final(self).keys == old(self).keys,
    {
        match unarmed {
            UnarmedMethod::AddToCycles => {
                self.cycles.add_item(CycleSlot::Left, "unarmed_proxy");
                self.cycles.add_item(CycleSlot::Right, "unarmed_proxy");
            },
            _ => {
                self.filter_kind(CycleSlot::Left, &BaseType::HandToHand, table);
                self.filter_kind(CycleSlot::Right, &BaseType::HandToHand, table);
            },
        }
        if group_potions {
            self.filter_kind(CycleSlot::Utility, &BaseType::Potion(PotionType::Stamina), table);
            self.cycles.add_item(CycleSlot::Utility, "stamina_proxy");
            self.filter_kind(CycleSlot::Utility, &BaseType::Potion(PotionType::Health), table);
            self.cycles.add_item(CycleSlot::Utility, "health_proxy");
            self.filter_kind(CycleSlot::Utility, &BaseType::Potion(PotionType::Magicka), table);
            self.cycles.add_item(CycleSlot::Utility, "magicka_proxy");
        } else {
            self.cycles.remove_item(CycleSlot::Utility, "stamina_proxy");
            self.cycles.remove_item(CycleSlot::Utility, "health_proxy");
            self.cycles.remove_item(CycleSlot::Utility, "magicka_proxy");
        }
        let mut effects: Vec<Effect> = Vec::new();
        if !autofade {
            effects.push(Effect::StartFade(self.cycles.hud_visible));
        }
        effects.push(Effect::RefreshLayout);
        assert(effects_view(effects@) =~= (if autofade {
            Seq::<EffectView>::empty()
        } else {
            seq![EffectView::StartFade(old(self).cycles.hud_visible)]
        }).push(EffectView::RefreshLayout));
        effects
    }

    /// What a slot shows, or the empty item.
    pub fn entry_to_show_in_slot(&self, slot: HudElement) -> (r: ShownItem)
        ensures
            r@ == match self.visible.shown(slot) {
                Some(x) => x,
                None => empty_view(),
            },
    {
        match self.visible.get(slot) {
            Some(item) => item,
            None => ShownItem::empty(),
        }
    }
}

/// A cycle turned to `f` when its slot changed, else as it was.
pub open spec fn turned_if(s: Seq<Seq<char>>, changed: bool, f: Seq<char>) -> Seq<Seq<char>> {
    if changed {
        turned_to(s, f)
    } else {
        s
    }
}

/// Whether showing `item` in a slot replaces a different item.
pub open spec fn replaces(o: Option<ItemView>, item: ItemView) -> bool {
    o matches Some(x) && x != item
}

impl Controller {
    /// Set the HUD up from what the game has equipped, after loading or
    /// when starting: the grip mode, the items in the hands (a hand that
    /// holds a two-hander shows nothing and remembers the top of its cycle),
    /// the power and the ammunition, and the top of the utility cycle. A
    /// cycle whose slot changed is turned to the equipped item.
    pub fn update_hud(
        &mut self,
        cgo_alt_grip: bool,
        right: &ShownItem,
        left: &ShownItem,
        power: &ShownItem,
        ammo: &ShownItem,
        table: &ItemTable,
    )
        ensures
            ({
                let treat_right = cgo_alt_grip != right.kind.spec_two_handed();
                let treat_left = cgo_alt_grip != left.kind.spec_two_handed();
                let left_shown = if treat_left { empty_view() } else { left@ };
                &&& final(self).cgo_alt_grip == cgo_alt_grip
                &&& final(self).two_hander_equipped == right.kind.spec_two_handed()
                &&& final(self).visible.shown(HudElement::Right) == Some(right@)
                &&& final(self).visible.shown(HudElement::Left) == Some(left_shown)
                &&& final(self).visible.shown(HudElement::Power) == Some(power@)
                &&& final(self).visible.shown(HudElement::Ammo) == Some(ammo@)
                &&& final(self).visible.shown(HudElement::Utility) == Some(
                    match first_of_slot(old(self).cycles, CycleSlot::Utility) {
                        Some(u) => item_for(table.entries(), u),
                        None => empty_view(),
                    },
                )
                &&& final(self).visible.shown(HudElement::EquipSet) == old(self).visible.shown(HudElement::EquipSet)
                &&& final(self).visible.shown(HudElement::NotDrawn) == old(self).visible.shown(HudElement::NotDrawn)
                &&& final(self).right_hand_cached@ == if treat_right {
                    old(self).right_hand_cached@
                } else {
                    right.form_string@
                }
                &&& final(self).left_hand_cached@ == if treat_left {
                    match first_of_slot(old(self).cycles, CycleSlot::Left) {
                        Some(f) => f,
                        None => Seq::empty(),
                    }
                } else {
                    left.form_string@
                }
                &&& final(self).cycles.slot(CycleSlot::Power) == turned_if(
                    old(self).cycles.slot(CycleSlot::Power),
                    replaces(old(self).visible.shown(HudElement::Power), power@),
                    power.form_string@,
                )
                &&& final(self).cycles.slot(CycleSlot::Left) == turned_if(
                    old(self).cycles.slot(CycleSlot::Left),
                    replaces(old(self).visible.shown(HudElement::Left), left_shown),
                    left.form_string@,
                )
                &&& final(self).cycles.slot(CycleSlot::Right) == turned_if(
                    old(self).cycles.slot(CycleSlot::Right),
                    replaces(old(self).visible.shown(HudElement::Right), right@),
                    right.form_string@,
                )
            }),
            final(self).cycles.slot(CycleSlot::Utility) == old(self).cycles.slot(CycleSlot::Utility),
            final(self).cycles.sets() == old(self).cycles.sets(),
            final(self).cycles.hud_visible == old(self).cycles.hud_visible,
            final(self).cycles.loaded == old(self).cycles.loaded,
            final(self).keys == old(self).keys,
    {
        self.cgo_alt_grip = cgo_alt_grip;
        let treat_right = self.treat_as_two_handed(&right.kind);
        let right_changed = self.visible.update_slot(HudElement::Right, right.duplicate());
        if !treat_right {
            self.right_hand_cached = right.form_string.clone();
        }
        let treat_left = self.treat_as_two_handed(&left.kind);
        let left_unexpected = if !treat_left {
            self.left_hand_cached = left.form_string.clone();
            self.visible.update_slot(HudElement::Left, left.duplicate())
        } else {
            self.left_hand_cached = match self.cycles.get_top(&CycleSlot::Left) {
                Some(f) => f,
                None => {
                    let e = String::new();
                    assert(e@ =~= Seq::<char>::empty());
                    e
                },
            };
            self.visible.update_slot(HudElement::Left, ShownItem::empty())
        };
        self.two_hander_equipped = right.kind.two_handed();
        let power_changed = self.visible.update_slot(HudElement::Power, power.duplicate());
        self.visible.update_slot(HudElement::Ammo, ammo.duplicate());
        match self.cycles.get_top(&CycleSlot::Utility) {
            Some(u) => {
                let item = table.get(u.as_str());
                self.visible.update_slot(HudElement::Utility, item);
            },
            None => {
                self.visible.update_slot(HudElement::Utility, ShownItem::empty());
            },
        }
        if power_changed {
            self.cycles.turn_to(&CycleSlot::Power, power.form_string.as_str());
        }
        if left_unexpected {
            self.cycles.turn_to(&CycleSlot::Left, left.form_string.as_str());
        }
        if right_changed {
            self.cycles.turn_to(&CycleSlot::Right, right.form_string.as_str());
        }
    }

    /// After a save is loaded: drop the cycle entries the player no longer
    /// holds (see `validate`), then set the HUD up from what the game has
    /// equipped (see `update_hud`).
    pub fn refresh_after_load(
        &mut self,
        inv: &super::cycles::Inventory,
        cgo_alt_grip: bool,
        right: &ShownItem,
        left: &ShownItem,
        power: &ShownItem,
        ammo: &ShownItem,
        table: &ItemTable,
    )
        ensures
            final(self).cycles.slot(CycleSlot::Utility) == old(self).cycles.slot(CycleSlot::Utility).filter(
                super::cycles::held_in(*inv),
            ),
            final(self).visible.shown(HudElement::Utility) == Some(
                match super::cycleentries::first_of(
                    old(self).cycles.slot(CycleSlot::Utility).filter(super::cycles::held_in(*inv)),
                ) {
                    Some(u) => item_for(table.entries(), u),
                    None => empty_view(),
                },
            ),
            final(self).visible.shown(HudElement::Right) == Some(right@),
            final(self).visible.shown(HudElement::Power) == Some(power@),
            final(self).visible.shown(HudElement::Ammo) == Some(ammo@),
            final(self).cgo_alt_grip == cgo_alt_grip,
            final(self).two_hander_equipped == right.kind.spec_two_handed(),
            final(self).cycles.sets() == old(self).cycles.sets(),
            final(self).cycles.hud_visible == old(self).cycles.hud_visible,
            final(self).keys == old(self).keys,
            ({
                let held = super::cycles::held_in(*inv);
                let treat_right = cgo_alt_grip != right.kind.spec_two_handed();
                let treat_left = cgo_alt_grip != left.kind.spec_two_handed();
                let left_shown = if treat_left {
                    empty_view()
                } else {
                    left@
                };
                &&& final(self).visible.shown(HudElement::Left) == Some(left_shown)
                &&& final(self).visible.shown(HudElement::EquipSet) == old(self).visible.shown(HudElement::EquipSet)
                &&& final(self).right_hand_cached@ == if treat_right {
                    old(self).right_hand_cached@
                } else {
                    right.form_string@
                }
                &&& final(self).left_hand_cached@ == if treat_left {
                    match super::cycleentries::first_of(old(self).cycles.slot(CycleSlot::Left).filter(held)) {
                        Some(f) => f,
                        None => Seq::empty(),
                    }
                } else {
                    left.form_string@
                }
                &&& final(self).cycles.slot(CycleSlot::Power) == turned_if(
                    old(self).cycles.slot(CycleSlot::Power).filter(held),
                    replaces(old(self).visible.shown(HudElement::Power), power@),
                    power.form_string@,
                )
                &&& final(self).cycles.slot(CycleSlot::Left) == turned_if(
                    old(self).cycles.slot(CycleSlot::Left).filter(held),
                    replaces(old(self).visible.shown(HudElement::Left), left_shown),
                    left.form_string@,
                )
                &&& final(self).cycles.slot(CycleSlot::Right) == turned_if(
                    old(self).cycles.slot(CycleSlot::Right).filter(held),
                    replaces(old(self).visible.shown(HudElement::Right), right@),
                    right.form_string@,
                )
            }),
    {
        self.cycles.validate(inv);
        self.update_hud(cgo_alt_grip, right, left, power, ammo, table);
    }
}

/// Whether the table gives an entry a two-handed kind.
pub open spec fn two_handed_in(t: Seq<ItemView>, f: Seq<char>) -> bool {
    item_for(t, f).1.spec_two_handed()
}

/// A cycle rotated by one, then turned to its first entry that is not
/// two-handed by the table; the entry is returned. A cycle of nothing but
/// two-handers stays rotated and returns nothing; an empty cycle stays as it is.
pub open spec fn one_handed_rotation(s: Seq<Seq<char>>, t: Seq<ItemView>) -> (Seq<Seq<char>>, Option<Seq<char>>) {
    if s.len() == 0 {
        (s, None)
    } else {
        let r = rotated(s, 1);
        if exists|k: int| 0 <= k < r.len() && !two_handed_in(t, r[k]) {
            let k = choose|k: int|
                0 <= k < r.len() && !two_handed_in(t, r[k]) && forall|j: int| 0 <= j < k ==> two_handed_in(t, r[j]);
            (rotated(r, k), Some(r[k]))
        } else {
            (r, None)
        }
    }
}

impl Controller {
    /// Advance the right-hand cycle by one, skipping over two-handed
    /// entries; returns the new current entry, if any is one-handed.
    pub fn advance_skipping_twohanders(&mut self, table: &ItemTable) -> (r: Option<String>)
        ensures
            final(self).cycles.slot(CycleSlot::Right) == one_handed_rotation(
                old(self).cycles.slot(CycleSlot::Right),
                table.entries(),
            ).0,
            r.deep_view() == one_handed_rotation(old(self).cycles.slot(CycleSlot::Right), table.entries()).1,
            final(self).cycles.same_but(old(self).cycles, CycleSlot::Right),
            final(self).visible == old(self).visible,
            final(self).two_hander_equipped == old(self).two_hander_equipped,
            final(self).left_hand_cached == old(self).left_hand_cached,
            final(self).right_hand_cached == old(self).right_hand_cached,
            final(self).cgo_alt_grip == old(self).cgo_alt_grip,
            final(self).keys == old(self).keys,
    {
        let ghost t = table.entries();
        if self.cycles.cycle_len(&CycleSlot::Right) == 0 {
            return None;
        }
        self.cycles.advance(&CycleSlot::Right, 1);
        let ghost r0 = self.cycles.slot(CycleSlot::Right);
        let entries = self.cycles.formids(&CycleSlot::Right);
        let mut k: usize = 0;
        while k < entries.len()
            invariant
                k <= entries@.len(),
                t == table.entries(),
                entries.deep_view() == r0,
                forall|j: int| 0 <= j < k ==> two_handed_in(t, r0[j]),
                self.cycles.slot(CycleSlot::Right) == r0,
                r0 == rotated(old(self).cycles.slot(CycleSlot::Right), 1),
                old(self).cycles.slot(CycleSlot::Right).len() > 0,
                self.cycles.same_but(old(self).cycles, CycleSlot::Right),
                self.visible == old(self).visible,
                self.two_hander_equipped == old(self).two_hander_equipped,
                self.left_hand_cached == old(self).left_hand_cached,
                self.right_hand_cached == old(self).right_hand_cached,
                self.cgo_alt_grip == old(self).cgo_alt_grip,
                self.keys == old(self).keys,
            decreases entries.len() - k,
        {
            assert(r0[k as int] == entries@[k as int]@);
            let item = table.get(entries[k].as_str());
            if !item.kind.two_handed() {
                let v = entries[k].clone();
                proof {
                    let c = choose|c: int|
                        0 <= c < r0.len() && !two_handed_in(t, r0[c]) && forall|j: int|
                            0 <= j < c ==> two_handed_in(t, r0[j]);
                    assert(c == k) by {
                        if c < k {
                            assert(two_handed_in(t, r0[c]));
                        } else if c > k {
                            assert(two_handed_in(t, r0[k as int]));
                        }
                    }
                    assert forall|j: int| 0 <= j < k implies r0[j] != v@ by {
                        assert(two_handed_in(t, r0[j]));
                    }
                    assert(super::cycleentries::first_with_id::<String>(r0, v@, k as int));
                    assert(turned_to(r0, v@) == rotated(r0, k as int)) by {
                        let i = choose|i: int| super::cycleentries::first_with_id::<String>(r0, v@, i);
                        if i < k {
                            assert(r0[i] != v@);
                        } else if i > k {
                            assert(r0[k as int] == v@);
                        }
                    }
                }
                self.cycles.turn_to(&CycleSlot::Right, v.as_str());
                return Some(v);
            }
            k += 1;
        }
        assert(!exists|c: int| 0 <= c < r0.len() && !two_handed_in(t, r0[c]));
        None
    }
}

/// What using a utility item does. Food and poison are consumed. The
/// stand-ins for the best health, magicka and stamina potion each drink
/// the best potion of their own kind. Any other potion is drunk, armor is
/// put on or taken off, and ammunition is equipped; anything else does
/// nothing.
pub proof fn lemma_utility_use_table(name: Seq<char>, kind: BaseType, count: u32)
    ensures
        (kind is Food || kind == BaseType::Potion(PotionType::Poison)) ==> utility_effect((name, kind, count))
            == Some(EffectView::ConsumePotion(name)),
        !(kind is Food || kind == BaseType::Potion(PotionType::Poison)) ==> utility_effect(
            ("health_proxy"@, kind, count),
        ) == Some(EffectView::ChooseHealthPotion) && utility_effect(("magicka_proxy"@, kind, count)) == Some(
            EffectView::ChooseMagickaPotion,
        ) && utility_effect(("stamina_proxy"@, kind, count)) == Some(EffectView::ChooseStaminaPotion),
        !(kind is Food || kind == BaseType::Potion(PotionType::Poison)) && name != "health_proxy"@ && name
            != "magicka_proxy"@ && name != "stamina_proxy"@ ==> utility_effect((name, kind, count)) == (if kind is Potion {
            Some(EffectView::ConsumePotion(name))
        } else if kind is Armor {
            Some(EffectView::ToggleArmor(name))
        } else if kind is Ammo {
            Some(EffectView::EquipAmmo(name))
        } else {
            None
        }),
{
    reveal_strlit("health_proxy");
    reveal_strlit("magicka_proxy");
    reveal_strlit("stamina_proxy");
    assert("health_proxy"@ != "magicka_proxy"@ && "health_proxy"@ != "stamina_proxy"@
        && "magicka_proxy"@ != "stamina_proxy"@) by {
        assert("health_proxy"@[0] != "magicka_proxy"@[0]);
        assert("health_proxy"@[0] != "stamina_proxy"@[0]);
        assert("magicka_proxy"@[0] != "stamina_proxy"@[0]);
    }
}

/// What equipping an item in a slot does. In a hand or the utility slot,
/// spells, scrolls, bare hands and lights are equipped in that slot,
/// ammunition is equipped as ammunition, and armor that belongs in the
/// utility cycle is put on or taken off; powers, potions and food equip
/// nothing there. In any other slot nothing is equipped this way.
pub proof fn lemma_equip_table(
    name: Seq<char>,
    count: u32,
    which: Action,
    spell: crate::data::spell::SpellType,
    light: crate::data::base::LightType,
    ammo: crate::data::ammo::AmmoType,
    armor: crate::data::armor::ArmorType,
    potion: PotionType,
    food: crate::data::food::FoodType,
    kind: BaseType,
)
    ensures
        !(which is Right || which is Left || which is Utility) ==> equip_effect((name, kind, count), which) is None,
        (which is Right || which is Left || which is Utility) ==> {
            &&& equip_effect((name, BaseType::Spell(spell), count), which) == Some(EffectView::EquipWeapon(name, which))
            &&& equip_effect((name, BaseType::Scroll(spell), count), which) == Some(EffectView::EquipWeapon(name, which))
            &&& equip_effect((name, BaseType::HandToHand, count), which) == Some(EffectView::EquipWeapon(name, which))
            &&& equip_effect((name, BaseType::Light(light), count), which) == Some(EffectView::EquipWeapon(name, which))
            &&& equip_effect((name, BaseType::Ammo(ammo), count), which) == Some(EffectView::EquipAmmo(name))
            &&& armor.spec_is_utility() ==> equip_effect((name, BaseType::Armor(armor), count), which) == Some(
                EffectView::ToggleArmor(name),
            )
            &&& equip_effect((name, BaseType::Power, count), which) is None
            &&& equip_effect((name, BaseType::Potion(potion), count), which) is None
            &&& equip_effect((name, BaseType::Food(food), count), which) is None
        },
{
}

/// Which cycles a favorite change touches. Utility items touch only the
/// utility cycle, and powers and shouts only the powers cycle. A favorited
/// one-handed spell goes in both hands, a scroll only in the right hand,
/// and a light only in the left hand. An unfavorited item leaves both
/// hands, or only the right one when it needs both hands.
pub proof fn lemma_favorite_targets(
    kind: BaseType,
    count: u32,
    is_favorite: bool,
    spell: crate::data::spell::SpellType,
    light: crate::data::base::LightType,
)
    ensures
        kind.spec_is_utility() ==> favorite_targets(kind, count, is_favorite) == (true, false, false, false),
        (kind == BaseType::Power || kind is Shout) ==> favorite_targets(kind, count, is_favorite) == (
            false,
            true,
            false,
            false,
        ),
        !spell.data.twohanded ==> favorite_targets(BaseType::Spell(spell), count, true) == (false, false, true, true),
        favorite_targets(BaseType::Scroll(spell), count, true) == (false, false, true, false),
        favorite_targets(BaseType::Light(light), count, true) == (false, false, false, true),
        !kind.spec_is_utility() && !kind.spec_is_power() ==> favorite_targets(kind, count, false) == (
            false,
            false,
            true,
            !kind.spec_two_handed(),
        ),
{
}

} // verus!
