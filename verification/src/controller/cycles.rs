//! The player's item cycles and equipment sets: what each cycle holds and
//! how it changes when the player presses keys or edits the cycles.

use vstd::prelude::*;

use super::control::MenuEventResponse;
use super::cycleentries::{
    copy_strings, differs_from, entry_views, first_of, first_with_id, has_id, ids_distinct,
    ids_of, ids_sorted, lemma_next_id_is, lemma_next_id_is_fresh, next_id, next_of, rotated,
    id_position, without_id, Cycle, CycleEntry, EquipSet, SetView, UpdateableItemCycle,
};
use super::keys::CycleSlot;
use crate::data::base::BaseType;
use crate::data::IsHudItem;
use crate::plugin::EquippedData;
use crate::text::same_text;

verus! {


/// The player's configured item cycles and equipment sets, and whether the
/// HUD is shown. Each cycle holds item form specs, written `mod.esp|0xid`.
#[derive(Debug, Clone)]
pub struct CycleData {
    /// Left hand cycle form specs.
    pub left: Vec<String>,
    /// Right hand cycle form specs.
    pub right: Vec<String>,
    /// Shouts and powers cycle form specs.
    pub power: Vec<String>,
    /// Utility items and consumables form specs.
    pub utility: Vec<String>,
    /// Equipment sets.
    pub equipsets: Vec<EquipSet>,
    /// Was the hud visible when we saved?
    pub hud_visible: bool,
    /// Was this cycle loaded from saved data, or are we operating on defaults?
    pub loaded: bool,
}

/// Whether an item of this kind may join the given cycle.
pub open spec fn slot_accepts(which: CycleSlot, kind: BaseType) -> bool {
    match which {
        CycleSlot::Power => kind.spec_is_power(),
        CycleSlot::Left => kind.spec_left_hand_ok(),
        CycleSlot::Right => kind.spec_right_hand_ok(),
        CycleSlot::Utility => kind.spec_is_utility(),
    }
}

impl CycleData {
    /// The form specs of a cycle, in cycle order; the first is current.
    pub open spec fn slot(self, which: CycleSlot) -> Seq<Seq<char>> {
        match which {
            CycleSlot::Power => entry_views(self.power@),
            CycleSlot::Left => entry_views(self.left@),
            CycleSlot::Right => entry_views(self.right@),
            CycleSlot::Utility => entry_views(self.utility@),
        }
    }

    /// The equipment sets, in cycle order; the first is current.
    pub open spec fn sets(self) -> Seq<SetView> {
        entry_views(self.equipsets@)
    }

    /// Everything but the given cycle is the same in both.
    pub open spec fn same_but(self, other: CycleData, which: CycleSlot) -> bool {
        &&& forall|s: CycleSlot| s != which ==> #[trigger] self.slot(s) == other.slot(s)
        &&& self.sets() == other.sets()
        &&& self.hud_visible == other.hud_visible
        &&& self.loaded == other.loaded
    }

    /// Everything but the equipment sets is the same in both.
    pub open spec fn same_cycles(self, other: CycleData) -> bool {
        &&& forall|s: CycleSlot| #[trigger] self.slot(s) == other.slot(s)
        &&& self.hud_visible == other.hud_visible
        &&& self.loaded == other.loaded
    }

    /// Everything is the same in both.
    pub open spec fn same_as(self, other: CycleData) -> bool {
        &&& self.same_cycles(other)
        &&& self.sets() == other.sets()
    }
}

impl Default for CycleData {
    fn default() -> (r: Self)
        ensures
            forall|s: CycleSlot| #[trigger] r.slot(s) == Seq::<Seq<char>>::empty(),
            r.sets() == Seq::<SetView>::empty(),
            r.hud_visible,
            !r.loaded,
    {
        let r = CycleData {
            left: Vec::new(),
            right: Vec::new(),
            power: Vec::new(),
            utility: Vec::new(),
            equipsets: Vec::new(),
            hud_visible: true,
            loaded: false,
        };
        assert(forall|s: CycleSlot| #[trigger] r.slot(s) =~= Seq::<Seq<char>>::empty());
        assert(r.sets() =~= Seq::<SetView>::empty());
        r
    }
}

/// Toggling item `f` of kind `kind` in cycle `which` took it from `before`
/// to `after` and answered `r`: an item of a kind the cycle does not take is
/// refused, one in the cycle removed, one not in it added at the end when
/// the cycle holds fewer than `maxlen` entries, and refused otherwise.
pub open spec fn toggled(
    before: Seq<Seq<char>>,
    after: Seq<Seq<char>>,
    r: MenuEventResponse,
    which: CycleSlot,
    kind: BaseType,
    f: Seq<char>,
    maxlen: u32,
) -> bool {
    &&& !slot_accepts(which, kind) ==> r == MenuEventResponse::ItemInappropriate && after == before
    &&& slot_accepts(which, kind) && before.contains(f) ==> r == MenuEventResponse::ItemRemoved && after
        == before.filter(differs_from(f))
    &&& slot_accepts(which, kind) && !before.contains(f) && before.len() >= maxlen ==> r
        == MenuEventResponse::TooManyItems && after == before
    &&& slot_accepts(which, kind) && !before.contains(f) && before.len() < maxlen ==> r
        == MenuEventResponse::ItemAdded && after == before.push(f)
}

/// Toggle `item` in `cycle`: remove it when present, else add it when the
/// cycle has room.
fn toggle_in(cycle: &mut Vec<String>, item: &String, maxlen: u32) -> (r: MenuEventResponse)
    ensures
        old(cycle).entries().contains(item@) ==> r == MenuEventResponse::ItemRemoved
            && final(cycle).entries() == old(cycle).entries().filter(differs_from(item@)),
        !old(cycle).entries().contains(item@) && old(cycle).entries().len() >= maxlen ==> r
            == MenuEventResponse::TooManyItems && final(cycle).entries() == old(cycle).entries(),
        !old(cycle).entries().contains(item@) && old(cycle).entries().len() < maxlen ==> r
            == MenuEventResponse::ItemAdded && final(cycle).entries() == old(cycle).entries().push(
            item@,
        ),
{
    if cycle.includes(item) {
        cycle.delete(item);
        MenuEventResponse::ItemRemoved
    } else if cycle.len() >= maxlen as usize {
        MenuEventResponse::TooManyItems
    } else {
        cycle.add(item);
        MenuEventResponse::ItemAdded
    }
}

impl CycleData {
    /// Clear all cycles, including the equipsets.
    pub fn clear(&mut self)
        ensures
            forall|s: CycleSlot| #[trigger] final(self).slot(s) == Seq::<Seq<char>>::empty(),
            final(self).sets() == Seq::<SetView>::empty(),
            final(self).hud_visible == old(self).hud_visible,
            final(self).loaded == old(self).loaded,
    {
        self.power.clear();
        self.utility.clear();
        self.left.clear();
        self.right.clear();
        self.equipsets.clear();
        assert(forall|s: CycleSlot| #[trigger] self.slot(s) =~= Seq::<Seq<char>>::empty());
        assert(self.sets() =~= Seq::<SetView>::empty());
    }

    /// A copy of the form specs in the given cycle.
    pub fn formids(&self, which: &CycleSlot) -> (r: Vec<String>)
        ensures
            r.deep_view() == self.slot(*which),
    {
        let r = match which {
            CycleSlot::Power => copy_strings(&self.power),
            CycleSlot::Left => copy_strings(&self.left),
            CycleSlot::Right => copy_strings(&self.right),
            CycleSlot::Utility => copy_strings(&self.utility),
        };
        proof {
            let v = match *which {
                CycleSlot::Power => self.power,
                CycleSlot::Left => self.left,
                CycleSlot::Right => self.right,
                CycleSlot::Utility => self.utility,
            };
            assert(v.deep_view() =~= entry_views(v@));
        }
        r
    }

    /// Rotate the given cycle left by `amount` and return the newly current entry.
    ///
    /// Called when the player presses a hotkey bound to one of the cycle slots.
    /// This does not equip or try to use the item in any way.
    pub fn advance(&mut self, which: &CycleSlot, amount: usize) -> (r: Option<String>)
        requires
            amount <= old(self).slot(*which).len(),
        ensures
            final(self).slot(*which) == rotated(old(self).slot(*which), amount as int),
            r.deep_view() == first_of(final(self).slot(*which)),
            final(self).same_but(*old(self), *which),
    {
        let r = match which {
            CycleSlot::Power => self.power.advance(amount),
            CycleSlot::Left => self.left.advance(amount),
            CycleSlot::Right => self.right.advance(amount),
            CycleSlot::Utility => self.utility.advance(amount),
        };
        r
    }

    /// The number of entries in the given cycle.
    pub fn cycle_len(&self, which: &CycleSlot) -> (r: usize)
        ensures
            r == self.slot(*which).len(),
    {
        match which {
            CycleSlot::Power => self.power.len(),
            CycleSlot::Left => self.left.len(),
            CycleSlot::Right => self.right.len(),
            CycleSlot::Utility => self.utility.len(),
        }
    }

    /// Make the first entry with the given form spec current. A cycle without
    /// the form spec is left as it is.
    pub fn set_top(&mut self, which: &CycleSlot, form_spec: &str)
        ensures
            forall|i: int|
                first_with_id::<String>(old(self).slot(*which), form_spec@, i) ==> final(self).slot(
                    *which,
                ) == rotated(old(self).slot(*which), i),
            !has_id::<String>(old(self).slot(*which), form_spec@) ==> final(self).slot(*which)
                == old(self).slot(*which),
            final(self).same_but(*old(self), *which),
    {
        match which {
            CycleSlot::Power => self.power.set_top(form_spec),
            CycleSlot::Left => self.left.set_top(form_spec),
            CycleSlot::Right => self.right.set_top(form_spec),
            CycleSlot::Utility => self.utility.set_top(form_spec),
        }
    }

    /// The current entry of the given cycle.
    pub fn get_top(&self, which: &CycleSlot) -> (r: Option<String>)
        ensures
            r.deep_view() == first_of(self.slot(*which)),
    {
        match which {
            CycleSlot::Power => self.power.top(),
            CycleSlot::Left => self.left.top(),
            CycleSlot::Right => self.right.top(),
            CycleSlot::Utility => self.utility.top(),
        }
    }

    /// The entry after the current one, without advancing.
    pub fn peek_next(&self, which: &CycleSlot) -> (r: Option<String>)
        ensures
            r.deep_view() == next_of(self.slot(*which)),
    {
        match which {
            CycleSlot::Power => self.power.peek_next(),
            CycleSlot::Left => self.left.peek_next(),
            CycleSlot::Right => self.right.peek_next(),
            CycleSlot::Utility => self.utility.peek_next(),
        }
    }

    /// Toggle the presence of an item in the given cycle.
    ///
    /// An item of a kind the cycle does not take is refused. An item in the
    /// cycle is removed; one not in it is added at the end, provided the
    /// cycle holds fewer than `maxlen` entries. The current entry changes
    /// only when it is the one removed.
    pub fn toggle(
        &mut self,
        which: &CycleSlot,
        form_string: &str,
        kind: &BaseType,
        maxlen: u32,
    ) -> (r: MenuEventResponse)
        ensures
            toggled(old(self).slot(*which), final(self).slot(*which), r, *which, *kind, form_string@, maxlen),
            final(self).same_but(*old(self), *which),
    {
        let spec = String::from_str(form_string);
        match which {
            CycleSlot::Power => {
                if !kind.is_power() {
                    return MenuEventResponse::ItemInappropriate;
                }
                toggle_in(&mut self.power, &spec, maxlen)
            },
            CycleSlot::Left => {
                if !kind.left_hand_ok() {
                    return MenuEventResponse::ItemInappropriate;
                }
                toggle_in(&mut self.left, &spec, maxlen)
            },
            CycleSlot::Right => {
                if !kind.right_hand_ok() {
                    return MenuEventResponse::ItemInappropriate;
                }
                toggle_in(&mut self.right, &spec, maxlen)
            },
            CycleSlot::Utility => {
                if !kind.is_utility() {
                    return MenuEventResponse::ItemInappropriate;
                }
                toggle_in(&mut self.utility, &spec, maxlen)
            },
        }
    }
}


/// A cycle without the entries for `f` when `drop` holds, else as it is.
pub open spec fn dropped_if(s: Seq<Seq<char>>, f: Seq<char>, drop: bool) -> Seq<Seq<char>> {
    if drop {
        without_id::<String>(s, f)
    } else {
        s
    }
}

impl CycleData {
    /// Whether the given cycle holds the form spec.
    pub fn includes(&self, which: &CycleSlot, form_string: &str) -> (r: bool)
        ensures
            r == self.slot(*which).contains(form_string@),
    {
        let spec = String::from_str(form_string);
        match which {
            CycleSlot::Power => self.power.includes(&spec),
            CycleSlot::Left => self.left.includes(&spec),
            CycleSlot::Right => self.right.includes(&spec),
            CycleSlot::Utility => self.utility.includes(&spec),
        }
    }

    /// Make sure the given cycle holds the form spec, adding it at the end if
    /// it does not; says whether it was added.
    pub fn add_item(&mut self, which: CycleSlot, form_string: &str) -> (r: bool)
        ensures
            r == !old(self).slot(which).contains(form_string@),
            r ==> final(self).slot(which) == old(self).slot(which).push(form_string@),
            !r ==> final(self).slot(which) == old(self).slot(which),
            final(self).same_but(*old(self), which),
    {
        let spec = String::from_str(form_string);
        match which {
            CycleSlot::Power => self.power.add(&spec),
            CycleSlot::Left => self.left.add(&spec),
            CycleSlot::Right => self.right.add(&spec),
            CycleSlot::Utility => self.utility.add(&spec),
        }
    }

    /// Remove the form spec from the given cycle; says whether it was there.
    pub fn remove_item(&mut self, which: CycleSlot, form_string: &str) -> (r: bool)
        ensures
            r == old(self).slot(which).contains(form_string@),
            final(self).slot(which) == old(self).slot(which).filter(differs_from(form_string@)),
            final(self).same_but(*old(self), which),
    {
        let spec = String::from_str(form_string);
        match which {
            CycleSlot::Power => self.power.delete(&spec),
            CycleSlot::Left => self.left.delete(&spec),
            CycleSlot::Right => self.right.delete(&spec),
            CycleSlot::Utility => self.utility.delete(&spec),
        }
    }

    /// Drop an item the player no longer has from every cycle it belongs
    /// in. Nothing happens while the count is above zero; at zero, the item
    /// leaves the utility cycle when its kind is a utility, and each hand
    /// cycle whose hand takes its kind. The powers cycle and the equipsets
    /// stay.
    pub fn remove_zero_count_items(&mut self, form_spec: &str, kind: &BaseType, count: u32)
        ensures
            final(self).slot(CycleSlot::Utility) == dropped_if(
                old(self).slot(CycleSlot::Utility),
                form_spec@,
                count == 0 && kind.spec_is_utility(),
            ),
            final(self).slot(CycleSlot::Left) == dropped_if(
                old(self).slot(CycleSlot::Left),
                form_spec@,
                count == 0 && kind.spec_left_hand_ok(),
            ),
            final(self).slot(CycleSlot::Right) == dropped_if(
                old(self).slot(CycleSlot::Right),
                form_spec@,
                count == 0 && kind.spec_right_hand_ok(),
            ),
            final(self).slot(CycleSlot::Power) == old(self).slot(CycleSlot::Power),
            final(self).sets() == old(self).sets(),
            final(self).hud_visible == old(self).hud_visible,
            final(self).loaded == old(self).loaded,
    {
        if count > 0 {
            return;
        }
        if kind.is_utility() {
            self.utility.filter_id(form_spec);
        }
        if kind.left_hand_ok() {
            self.left.filter_id(form_spec);
        }
        if kind.right_hand_ok() {
            self.right.filter_id(form_spec);
        }
    }

    /// Show or hide the HUD. Says whether the visibility changed, in which
    /// case the game side fades the HUD in or out.
    pub fn set_hud_visible(&mut self, visible: bool) -> (r: bool)
        ensures
            r == (visible != old(self).hud_visible),
            final(self).hud_visible == visible,
            forall|s: CycleSlot| #[trigger] final(self).slot(s) == old(self).slot(s),
            final(self).sets() == old(self).sets(),
            final(self).loaded == old(self).loaded,
    {
        if visible != self.hud_visible {
            self.hud_visible = visible;
            true
        } else {
            false
        }
    }

    /// Flip the visibility of the HUD; the visibility always changes.
    pub fn toggle_hud(&mut self) -> (r: bool)
        ensures
            r,
            final(self).hud_visible == !old(self).hud_visible,
            forall|s: CycleSlot| #[trigger] final(self).slot(s) == old(self).slot(s),
            final(self).sets() == old(self).sets(),
            final(self).loaded == old(self).loaded,
    {
        let flipped = !self.hud_visible;
        self.set_hud_visible(flipped)
    }

    /// Whether the HUD is visible.
    pub fn hud_visible(&mut self) -> (r: bool)
        ensures
            r == old(self).hud_visible,
            *final(self) == *old(self),
    {
        self.hud_visible
    }
}

/// Filtering by a predicate every entry meets keeps every entry.
proof fn lemma_filter_all_true(s: Seq<Seq<char>>, p: spec_fn(Seq<char>) -> bool)
    requires
        forall|i: int| 0 <= i < s.len() ==> p(#[trigger] s[i]),
    ensures
        s.filter(p) == s,
    decreases s.len(),
{
    reveal(Seq::filter);
    if s.len() > 0 {
        lemma_filter_all_true(s.drop_last(), p);
        assert(s.drop_last().push(s.last()) =~= s);
    } else {
        assert(s.filter(p) =~= s);
    }
}


/// Insert `e` into `sorted` after the last set whose id is not above the id of `e`.
pub open spec fn insert_by_id(sorted: Seq<SetView>, e: SetView) -> Seq<SetView>
    decreases sorted.len(),
{
    if sorted.len() == 0 {
        seq![e]
    } else if sorted.last().0 <= e.0 {
        sorted.push(e)
    } else {
        insert_by_id(sorted.drop_last(), e).push(sorted.last())
    }
}

/// The sets ordered by id; sets with equal ids keep their relative order.
pub open spec fn sorted_by_id(s: Seq<SetView>) -> Seq<SetView>
    decreases s.len(),
{
    if s.len() == 0 {
        s
    } else {
        insert_by_id(sorted_by_id(s.drop_last()), s.last())
    }
}

/// The names of the sets, in order.
pub open spec fn names_of(s: Seq<SetView>) -> Seq<Seq<char>> {
    s.map_values(|e: SetView| e.1)
}

/// Inserting at the place found by scanning from the back.
proof fn lemma_insert_at(t: Seq<SetView>, e: SetView, j: int)
    requires
        0 <= j <= t.len(),
        forall|k: int| j <= k < t.len() ==> #[trigger] t[k].0 > e.0,
        j == 0 || t[j - 1].0 <= e.0,
    ensures
        insert_by_id(t, e) == t.take(j).push(e) + t.skip(j),
    decreases t.len(),
{
    if t.len() == 0 {
        assert(t.take(j).push(e) + t.skip(j) =~= seq![e]);
    } else if t.last().0 <= e.0 {
        assert(j == t.len());
        assert(t.take(j).push(e) + t.skip(j) =~= t.push(e));
    } else {
        let u = t.drop_last();
        assert(j < t.len());
        lemma_insert_at(u, e, j);
        assert((u.take(j).push(e) + u.skip(j)).push(t.last()) =~= t.take(j).push(e) + t.skip(j));
    }
}

/// Every set in an insertion result is the inserted one or was already there,
/// and inserting into an id-ordered list keeps it id-ordered.
proof fn lemma_insert_keeps_order(t: Seq<SetView>, e: SetView)
    requires
        forall|a: int, b: int| 0 <= a <= b < t.len() ==> t[a].0 <= t[b].0,
    ensures
        insert_by_id(t, e).len() == t.len() + 1,
        forall|k: int|
            0 <= k < insert_by_id(t, e).len() ==> #[trigger] insert_by_id(t, e)[k] == e || t.contains(
                insert_by_id(t, e)[k],
            ),
        forall|a: int, b: int|
            0 <= a <= b < insert_by_id(t, e).len() ==> insert_by_id(t, e)[a].0 <= insert_by_id(
                t,
                e,
            )[b].0,
    decreases t.len(),
{
    if t.len() > 0 && t.last().0 > e.0 {
        let u = t.drop_last();
        lemma_insert_keeps_order(u, e);
        let r = insert_by_id(u, e);
        assert forall|k: int| 0 <= k < r.len() implies #[trigger] r[k].0 <= t.last().0 by {
            if r[k] != e {
                let w = choose|w: int| 0 <= w < u.len() && u[w] == r[k];
                assert(t[w] == u[w]);
            }
        }
        assert forall|k: int| 0 <= k < r.len() && r[k] != e implies t.contains(#[trigger] r[k]) by {
            let w = choose|w: int| 0 <= w < u.len() && u[w] == r[k];
            assert(t[w] == u[w]);
        }
        assert(t.contains(t.last())) by {
            assert(t[t.len() - 1] == t.last());
        }
    } else if t.len() > 0 {
        assert forall|k: int| 0 <= k < t.len() implies t.contains(#[trigger] t.push(e)[k]) by {
            assert(t.push(e)[k] == t[k]);
        }
    }
}

/// Inserting a set adds exactly that set, and its id, to what the list holds.
proof fn lemma_insert_adds_one(t: Seq<SetView>, e: SetView)
    ensures
        insert_by_id(t, e).to_multiset() == t.to_multiset().insert(e),
        ids_of(insert_by_id(t, e)).to_multiset() == ids_of(t).to_multiset().insert(e.0),
    decreases t.len(),
{
    broadcast use vstd::seq_lib::group_to_multiset_ensures;
    broadcast use vstd::multiset::group_multiset_axioms;

    if t.len() == 0 {
        assert(seq![e] =~= t.push(e));
        assert(ids_of(seq![e]) =~= ids_of(t).push(e.0));
    } else if t.last().0 <= e.0 {
        assert(ids_of(t.push(e)) =~= ids_of(t).push(e.0));
    } else {
        let u = t.drop_last();
        let l = t.last();
        lemma_insert_adds_one(u, e);
        assert(t =~= u.push(l));
        assert(ids_of(t) =~= ids_of(u).push(l.0));
        assert(ids_of(insert_by_id(u, e).push(l)) =~= ids_of(insert_by_id(u, e)).push(l.0));
        assert(u.to_multiset().insert(e).insert(l) =~= u.to_multiset().insert(l).insert(e));
        assert(ids_of(u).to_multiset().insert(e.0).insert(l.0) =~= ids_of(u).to_multiset().insert(
            l.0,
        ).insert(e.0));
    }
}

/// Ordering the sets by id rearranges them and nothing more: the same sets,
/// the same ids, each as often as before; so the name at each place of the
/// ordered list belongs to a set with the id at that place.
pub proof fn lemma_sorted_by_id_permutes(s: Seq<SetView>)
    ensures
        sorted_by_id(s).to_multiset() == s.to_multiset(),
        ids_of(sorted_by_id(s)).to_multiset() == ids_of(s).to_multiset(),
        forall|i: int| 0 <= i < sorted_by_id(s).len() ==> s.contains(#[trigger] sorted_by_id(s)[i]),
        forall|i: int|
            0 <= i < sorted_by_id(s).len() ==> exists|j: int|
                0 <= j < s.len() && s[j].0 == #[trigger] ids_of(sorted_by_id(s))[i] && s[j].1
                    == names_of(sorted_by_id(s))[i],
    decreases s.len(),
{
    broadcast use vstd::seq_lib::group_to_multiset_ensures;

    if s.len() > 0 {
        lemma_sorted_by_id_permutes(s.drop_last());
        lemma_insert_adds_one(sorted_by_id(s.drop_last()), s.last());
        assert(s =~= s.drop_last().push(s.last()));
        assert(ids_of(s) =~= ids_of(s.drop_last()).push(s.last().0));
    }
    lemma_sorted_by_id_is_ordered(s);
    let r = sorted_by_id(s);
    assert forall|i: int| 0 <= i < r.len() implies s.contains(#[trigger] r[i]) by {
        assert(r.contains(r[i]));
        assert(r.to_multiset().count(r[i]) > 0);
    }
    assert forall|i: int| 0 <= i < r.len() implies exists|j: int|
        0 <= j < s.len() && s[j].0 == #[trigger] ids_of(r)[i] && s[j].1 == names_of(r)[i] by {
        assert(s.contains(r[i]));
        let j = choose|j: int| 0 <= j < s.len() && s[j] == r[i];
        assert(s[j].0 == ids_of(r)[i]);
    }
}

/// Two ascending lists of ids that hold the same ids, each as often, are equal.
proof fn lemma_sorted_ids_unique(a: Seq<u32>, b: Seq<u32>)
    requires
        ids_sorted(a),
        ids_sorted(b),
        a.to_multiset() == b.to_multiset(),
    ensures
        a == b,
    decreases a.len(),
{
    broadcast use vstd::seq_lib::group_to_multiset_ensures;
    broadcast use vstd::multiset::group_multiset_axioms;

    assert(a.to_multiset().len() == a.len());
    assert(b.to_multiset().len() == b.len());
    if a.len() == 0 {
        assert(a =~= b);
    } else {
        let n = a.len() - 1;
        assert(a.contains(a[n]));
        assert(a.to_multiset().count(a[n]) > 0);
        assert(b.to_multiset().count(a[n]) > 0);
        assert(b.contains(a[n]));
        let i = choose|i: int| 0 <= i < b.len() && b[i] == a[n];
        assert(b.contains(b[n]));
        assert(b.to_multiset().count(b[n]) > 0);
        assert(a.to_multiset().count(b[n]) > 0);
        assert(a.contains(b[n]));
        let k = choose|k: int| 0 <= k < a.len() && a[k] == b[n];
        assert(a[k] <= a[n]);
        assert(b[i] <= b[n]);
        assert(a[n] == b[n]);
        assert(a.remove(n) =~= a.drop_last());
        assert(b.remove(n) =~= b.drop_last());
        assert(a.remove(n).to_multiset() == a.to_multiset().remove(a[n]));
        assert(b.remove(n).to_multiset() == b.to_multiset().remove(b[n]));
        lemma_sorted_ids_unique(a.drop_last(), b.drop_last());
        assert(a =~= a.drop_last().push(a[n]));
        assert(b =~= b.drop_last().push(b[n]));
    }
}

/// Turning the equipsets round leaves the ids listed in order unchanged.
pub proof fn lemma_rotation_keeps_equipset_ids(s: Seq<SetView>, n: int)
    requires
        0 <= n <= s.len(),
    ensures
        ids_of(sorted_by_id(rotated(s, n))) == ids_of(sorted_by_id(s)),
{
    let r = rotated(s, n);
    let ids = ids_of(s);
    assert(ids_of(r) =~= ids.subrange(n, s.len() as int) + ids.subrange(0, n));
    assert(ids =~= ids.subrange(0, n) + ids.subrange(n, s.len() as int));
    vstd::seq_lib::lemma_multiset_commutative(ids.subrange(n, s.len() as int), ids.subrange(0, n));
    vstd::seq_lib::lemma_multiset_commutative(ids.subrange(0, n), ids.subrange(n, s.len() as int));
    assert(ids.subrange(n, s.len() as int).to_multiset().add(ids.subrange(0, n).to_multiset())
        =~= ids.subrange(0, n).to_multiset().add(ids.subrange(n, s.len() as int).to_multiset()))
        by {
        broadcast use vstd::multiset::group_multiset_axioms;
    }
    lemma_sorted_by_id_permutes(s);
    lemma_sorted_by_id_permutes(r);
    lemma_sorted_by_id_is_ordered(s);
    lemma_sorted_by_id_is_ordered(r);
    lemma_sorted_ids_unique(ids_of(sorted_by_id(r)), ids_of(sorted_by_id(s)));
}

/// Sets ordered by id come in ascending id order, one entry for each set.
pub proof fn lemma_sorted_by_id_is_ordered(s: Seq<SetView>)
    ensures
        sorted_by_id(s).len() == s.len(),
        ids_sorted(ids_of(sorted_by_id(s))),
    decreases s.len(),
{
    if s.len() > 0 {
        lemma_sorted_by_id_is_ordered(s.drop_last());
        let t = sorted_by_id(s.drop_last());
        assert forall|a: int, b: int| 0 <= a <= b < t.len() implies t[a].0 <= t[b].0 by {
            assert(ids_of(t)[a] == t[a].0);
            assert(ids_of(t)[b] == t[b].0);
        }
        lemma_insert_keeps_order(t, s.last());
    }
    let r = sorted_by_id(s);
    assert forall|a: int, b: int| 0 <= a <= b < ids_of(r).len() implies ids_of(r)[a] <= ids_of(
        r,
    )[b] by {
        if s.len() > 0 {
            assert(r[a].0 <= r[b].0);
        }
    }
}

/// The sets ordered by id, stably.
fn sort_sets(v: &Vec<EquipSet>) -> (r: Vec<EquipSet>)
    ensures
        entry_views(r@) == sorted_by_id(entry_views(v@)),
{
    let ghost s = entry_views(v@);
    let mut out: Vec<EquipSet> = Vec::new();
    let mut i: usize = 0;
    while i < v.len()
        invariant
            i <= v.len(),
            s == entry_views(v@),
            entry_views(out@) == sorted_by_id(s.take(i as int)),
        decreases v.len() - i,
    {
        let e = v[i].duplicate();
        let mut j: usize = out.len();
        while j > 0 && out[j - 1].id() > e.id()
            invariant
                j <= out.len(),
                forall|k: int| j <= k < out@.len() ==> #[trigger] out@[k]@.0 > e@.0,
            decreases j,
        {
            j -= 1;
        }
        let ghost before = entry_views(out@);
        proof {
            assert forall|k: int| j <= k < before.len() implies #[trigger] before[k].0 > e@.0 by {
                assert(before[k] == out@[k]@);
            }
            lemma_insert_at(before, e@, j as int);
            assert(s.take(i + 1).drop_last() =~= s.take(i as int));
            assert(s.take(i + 1).last() == e@);
        }
        out.insert(j, e);
        assert(entry_views(out@) =~= before.take(j as int).push(e@) + before.skip(j as int));
        i += 1;
    }
    assert(s.take(v.len() as int) =~= s);
    out
}

impl CycleData {
    /// The current equipset, if there is one.
    pub fn get_top_equipset(&self) -> (r: Option<EquipSet>)
        ensures
            super::cycleentries::opt_view(r) == first_of(self.sets()),
    {
        self.equipsets.top()
    }

    /// Rotate the equipsets left by `amount` and return the new current one.
    pub fn advance_equipset(&mut self, amount: usize) -> (r: Option<EquipSet>)
        requires
            amount <= old(self).sets().len(),
        ensures
            final(self).sets() == rotated(old(self).sets(), amount as int),
            super::cycleentries::opt_view(r) == first_of(final(self).sets()),
            final(self).same_cycles(*old(self)),
    {
        self.equipsets.advance(amount)
    }

    /// Add an equipset with the given name, items and empty armor slots
    /// under the next free id.
    /// Says whether it was added: an equal set already present is not added
    /// again. When no two sets share an id, the set is always added and the
    /// ids stay distinct.
    pub fn add_equipset(&mut self, name: String, data: EquippedData) -> (r: bool)
        requires
            old(self).sets().len() < u32::MAX,
        ensures
            ({
                let before = old(self).sets();
                let e: SetView = (next_id(before) as u32, name@, data.items.deep_view(), data.empty_slots@);
                &&& r == !before.contains(e)
                &&& r ==> final(self).sets() == before.push(e)
                &&& !r ==> final(self).sets() == before
                &&& ids_distinct(before) ==> r && ids_distinct(final(self).sets())
            }),
            final(self).same_cycles(*old(self)),
    {
        let id = self.equipsets.find_next_id();
        let ghost before = self.sets();
        proof {
            lemma_next_id_is(before, id as int);
        }
        let set = EquipSet::new_with_slots(id, name, data.items, data.empty_slots);
        let r = self.equipsets.add(&set);
        proof {
            if ids_distinct(before) {
                lemma_next_id_is_fresh(before, id as int);
                assert(!before.contains(set@)) by {
                    if before.contains(set@) {
                        let w = choose|w: int| 0 <= w < before.len() && before[w] == set@;
                        assert(before[w].0 != id);
                    }
                }
                let after = before.push(set@);
                assert forall|a: int, b: int|
                    0 <= a < after.len() && 0 <= b < after.len() && a != b implies after[a].0
                    != after[b].0 by {
                    if a < before.len() && b < before.len() {
                        assert(after[a] == before[a]);
                        assert(after[b] == before[b]);
                    } else if a < before.len() {
                        assert(after[a] == before[a]);
                    } else {
                        assert(after[b] == before[b]);
                    }
                }
            }
        }
        r
    }

    /// Replace the items and the empty armor slots of the first equipset
    /// with the given id; says whether there is one.
    pub fn update_equipset(&mut self, id: u32, data: EquippedData) -> (r: bool)
        ensures
            match id_position(old(self).sets(), id) {
                Some(i) => r && final(self).sets() == old(self).sets().update(
                    i,
                    (old(self).sets()[i].0, old(self).sets()[i].1, data.items.deep_view(), data.empty_slots@),
                ),
                None => !r && final(self).sets() == old(self).sets(),
            },
            r == ids_of(old(self).sets()).contains(id),
            final(self).same_cycles(*old(self)),
    {
        self.equipsets.update_set(id, data.items, data.empty_slots)
    }

    /// Remove every equipset whose id, written in decimal, is `id`; says
    /// whether any was removed.
    pub fn remove_equipset(&mut self, id: String) -> (r: bool)
        ensures
            final(self).sets() == without_id::<EquipSet>(old(self).sets(), id@),
            r == has_id::<EquipSet>(old(self).sets(), id@),
            final(self).same_cycles(*old(self)),
    {
        self.equipsets.filter_id(id.as_str())
    }

    /// Rename the first equipset with the given id; says whether there is
    /// one.
    pub fn rename_equipset(&mut self, id: u32, name: String) -> (r: bool)
        ensures
            match id_position(old(self).sets(), id) {
                Some(i) => r && final(self).sets() == old(self).sets().update(
                    i,
                    (old(self).sets()[i].0, name@, old(self).sets()[i].2, old(self).sets()[i].3),
                ),
                None => !r && final(self).sets() == old(self).sets(),
            },
            r == ids_of(old(self).sets()).contains(id),
            final(self).same_cycles(*old(self)),
    {
        self.equipsets.rename_by_id(id, name)
    }

    /// The names of the equipsets, ordered by id.
    pub fn equipset_names(&self) -> (r: Vec<String>)
        ensures
            r.deep_view() == names_of(sorted_by_id(self.sets())),
    {
        let sorted = sort_sets(&self.equipsets);
        let ghost t = entry_views(sorted@);
        let mut out: Vec<String> = Vec::new();
        let mut i: usize = 0;
        while i < sorted.len()
            invariant
                i <= sorted.len(),
                t == entry_views(sorted@),
                out.deep_view() =~= names_of(t).take(i as int),
            decreases sorted.len() - i,
        {
            let n = sorted[i].name();
            let ghost before = out.deep_view();
            assert(t[i as int] == sorted@[i as int]@);
            out.push(n);
            assert(out.deep_view() =~= before.push(n@));
            i += 1;
        }
        out
    }

    /// The ids of the equipsets, in ascending order.
    pub fn equipset_ids(&self) -> (r: Vec<u32>)
        ensures
            r@ == ids_of(sorted_by_id(self.sets())),
            ids_sorted(r@),
    {
        proof {
            lemma_sorted_by_id_is_ordered(self.sets());
        }
        let sorted = sort_sets(&self.equipsets);
        let ghost t = entry_views(sorted@);
        let mut out: Vec<u32> = Vec::new();
        let mut i: usize = 0;
        while i < sorted.len()
            invariant
                i <= sorted.len(),
                t == entry_views(sorted@),
                out@ =~= ids_of(t).take(i as int),
            decreases sorted.len() - i,
        {
            out.push(sorted[i].id());
            i += 1;
        }
        out
    }

    /// The first equipset with the given id.
    pub fn equipset_by_id(&self, id: u32) -> (r: Option<EquipSet>)
        ensures
            r is Some <==> ids_of(self.sets()).contains(id),
            r matches Some(e) ==> exists|i: int|
                0 <= i < self.sets().len() && self.sets()[i] == e@ && e@.0 == id && forall|j: int|
                    0 <= j < i ==> #[trigger] self.sets()[j].0 != id,
    {
        match self.equipsets.get_by_id(id) {
            Some(e) => {
                let d = e.duplicate();
                proof {
                    let i = choose|i: int|
                        0 <= i < self.equipsets@.len() && self.equipsets@[i]@ == e@ && e@.0 == id
                            && forall|j: int| 0 <= j < i ==> #[trigger] self.equipsets@[j]@.0 != id;
                    assert(self.sets()[i] == e@);
                    assert forall|j: int| 0 <= j < i implies #[trigger] self.sets()[j].0 != id by {
                        assert(self.sets()[j] == self.equipsets@[j]@);
                    }
                }
                Some(d)
            },
            None => None,
        }
    }

    /// The id of the first equipset with the given name, or 0 when there is none.
    pub fn equipset_by_name(&mut self, name: String) -> (r: u32)
        ensures
            *final(self) == *old(self),
            (exists|i: int| 0 <= i < old(self).sets().len() && old(self).sets()[i].1 == name@)
                ==> exists|i: int|
                0 <= i < old(self).sets().len() && old(self).sets()[i].1 == name@ && r == old(
                    self,
                ).sets()[i].0 && forall|j: int|
                    0 <= j < i ==> #[trigger] old(self).sets()[j].1 != name@,
            !(exists|i: int| 0 <= i < old(self).sets().len() && old(self).sets()[i].1 == name@)
                ==> r == 0,
    {
        let mut i: usize = 0;
        while i < self.equipsets.len()
            invariant
                i <= self.equipsets.len(),
                forall|j: int| 0 <= j < i ==> #[trigger] self.sets()[j].1 != name@,
            decreases self.equipsets.len() - i,
        {
            if self.equipsets[i].name() == name {
                assert(self.sets()[i as int] == self.equipsets@[i as int]@);
                return self.equipsets[i].id();
            }
            i += 1;
        }
        0
    }

    /// The version of the saved data format this library writes.
    pub fn serialize_version() -> (r: u32)
        ensures
            r == 2,
    {
        2
    }

    /// The bytes these cycles are saved as, in the current format. They
    /// take at most `saved_size` bytes, and read back as the saved values
    /// when they are at most 64 MiB less a byte.
    pub fn serialize(&self) -> (r: Vec<u8>)
        ensures
            r@ == super::cosave_v2::cycles_bytes(*self),
            r@.len() <= super::cosave_v2::saved_size(
                self.slot(CycleSlot::Left),
                self.slot(CycleSlot::Right),
                self.slot(CycleSlot::Power),
                self.slot(CycleSlot::Utility),
                super::cosave_v2::saved_sets_view(self.sets()),
            ),
            32 * r@.len() <= 2147483647 ==> super::cosave_v2::saved_v2_decoding(r@)
                == Some(super::cosave_v2::saved_values(*self)),
    {
        let value = super::cosave_v2::CycleSerialized::from_cycles(self);
        value.to_bytes()
    }

    /// Read saved cycles of the given format version. `table` holds, for
    /// each spec the game still knows, the spec it reports for that item.
    /// Bytes that do not decode, and unknown versions, give nothing.
    pub fn deserialize(bytes: &[u8], version: u32, table: &Vec<(String, String)>) -> (r: Option<CycleData>)
        ensures
            version == 0 ==> match super::cosave_v0::saved_v0_decoding(bytes@) {
                None => r is None,
                Some(d) => r matches Some(c) && super::cosave_v0::loaded_from(
                    d,
                    super::cosave_v2::table_view(table@),
                    c,
                ),
            },
            version == 1 ==> match super::cosave_v1::saved_v1_decoding(bytes@) {
                None => r is None,
                Some(d) => r matches Some(c) && super::cosave_v1::loaded_from(
                    d,
                    super::cosave_v2::table_view(table@),
                    c,
                ),
            },
            version == 2 ==> match super::cosave_v2::saved_v2_decoding(bytes@) {
                None => r is None,
                Some(d) => r matches Some(c) && super::cosave_v2::loaded_from(
                    d,
                    super::cosave_v2::table_view(table@),
                    c,
                ),
            },
            version > 2 ==> r is None,
    {
        match version {
            0 => super::cosave_v0::deserialize(bytes, table),
            1 => super::cosave_v1::deserialize(bytes, table),
            2 => super::cosave_v2::deserialize(bytes, table),
            _ => None,
        }
    }

    /// The form specs saved in bytes of the given format version, the
    /// left, right, power and utility cycles in turn, for the game to look
    /// up before the cycles are read; nothing when the bytes do not decode
    /// or the version is unknown.
    pub fn saved_specs(bytes: &[u8], version: u32) -> (r: Option<Vec<String>>)
        ensures
            version == 0 ==> r.deep_view() == match super::cosave_v0::saved_v0_decoding(bytes@) {
                Some(d) => Some(
                    super::cosave_v0::decoded_specs(d.0) + super::cosave_v0::decoded_specs(d.1)
                        + super::cosave_v0::decoded_specs(d.2) + super::cosave_v0::decoded_specs(d.3),
                ),
                None => None,
            },
            version == 1 ==> r.deep_view() == match super::cosave_v1::saved_v1_decoding(bytes@) {
                Some(d) => Some(d.0 + d.1 + d.2 + d.3),
                None => None,
            },
            version == 2 ==> r.deep_view() == match super::cosave_v2::saved_v2_decoding(bytes@) {
                Some(d) => Some(d.0 + d.1 + d.2 + d.3),
                None => None,
            },
            version > 2 ==> r is None,
    {
        match version {
            0 => super::cosave_v0::saved_specs(bytes),
            1 => super::cosave_v1::saved_specs(bytes),
            2 => super::cosave_v2::saved_specs(bytes),
            _ => None,
        }
    }
}


/// No entry occurs twice.
pub open spec fn no_duplicates(s: Seq<Seq<char>>) -> bool {
    forall|i: int, j: int| 0 <= i < s.len() && 0 <= j < s.len() && i != j ==> s[i] != s[j]
}

/// Toggling an item into a cycle that has room and does not hold it adds it
/// at the end; toggling it again removes it and leaves the cycle as it was.
pub proof fn lemma_toggle_twice_restores(before: Seq<Seq<char>>, f: Seq<char>, maxlen: u32)
    requires
        !before.contains(f),
        before.len() < maxlen,
    ensures
        before.push(f).contains(f),
        before.push(f).filter(differs_from(f)) == before,
{
    assert(before.push(f)[before.len() as int] == f);
    let p = differs_from(f);
    reveal(Seq::filter);
    assert(before.push(f).drop_last() =~= before);
    assert forall|i: int| 0 <= i < before.len() implies p(#[trigger] before[i]) by {
        if before[i] == f {
            assert(before.contains(f));
        }
    }
    lemma_filter_all_true(before, p);
}

/// After an item is removed, the cycle no longer holds it; after it is
/// added, the cycle holds it.
pub proof fn lemma_remove_then_absent(before: Seq<Seq<char>>, f: Seq<char>)
    ensures
        !before.filter(differs_from(f)).contains(f),
        before.push(f).contains(f),
{
    let p = differs_from(f);
    let out = before.filter(p);
    if out.contains(f) {
        let i = choose|i: int| 0 <= i < out.len() && out[i] == f;
        before.lemma_filter_pred(p, i);
    }
    assert(before.push(f)[before.len() as int] == f);
}

/// Adding through `add_item` never makes an entry occur twice.
pub proof fn lemma_add_keeps_entries_unique(before: Seq<Seq<char>>, f: Seq<char>)
    requires
        no_duplicates(before),
    ensures
        no_duplicates(if before.contains(f) { before } else { before.push(f) }),
{
    if !before.contains(f) {
        let after = before.push(f);
        assert forall|i: int, j: int|
            0 <= i < after.len() && 0 <= j < after.len() && i != j implies after[i] != after[j] by {
            if i < before.len() && j < before.len() {
                assert(after[i] == before[i] && after[j] == before[j]);
            } else if i < before.len() {
                assert(after[i] == before[i]);
            } else {
                assert(after[j] == before[j]);
            }
        }
    }
}

/// Advancing a cycle by nothing, or by its whole length, leaves it as it was.
pub proof fn lemma_full_rotation_is_identity(s: Seq<Seq<char>>)
    ensures
        rotated(s, 0) == s,
        rotated(s, s.len() as int) == s,
{
    assert(rotated(s, 0) =~= s);
    assert(rotated(s, s.len() as int) =~= s);
}

/// Renaming an equipset or replacing its items and empty slots never
/// changes any id.
pub proof fn lemma_edits_keep_ids(
    s: Seq<SetView>,
    i: int,
    name: Seq<char>,
    items: Seq<Seq<char>>,
    slots: Seq<u8>,
)
    requires
        0 <= i < s.len(),
    ensures
        ids_of(s.update(i, (s[i].0, name, s[i].2, s[i].3))) == ids_of(s),
        ids_of(s.update(i, (s[i].0, s[i].1, items, slots))) == ids_of(s),
{
    assert(ids_of(s.update(i, (s[i].0, name, s[i].2, s[i].3))) =~= ids_of(s));
    assert(ids_of(s.update(i, (s[i].0, s[i].1, items, slots))) =~= ids_of(s));
}

/// Removing equipsets keeps the ids of the rest distinct.
pub proof fn lemma_remove_keeps_ids_distinct(s: Seq<SetView>, id: Seq<char>)
    requires
        ids_distinct(s),
    ensures
        ids_distinct(without_id::<EquipSet>(s, id)),
{
    lemma_filter_keeps_distinct_ids(s, super::cycleentries::id_differs::<EquipSet>(id));
}

/// A filtered list of equipsets with distinct ids has distinct ids.
proof fn lemma_filter_keeps_distinct_ids(s: Seq<SetView>, p: spec_fn(SetView) -> bool)
    requires
        ids_distinct(s),
    ensures
        ids_distinct(s.filter(p)),
        forall|k: int| 0 <= k < s.filter(p).len() ==> s.contains(#[trigger] s.filter(p)[k]),
    decreases s.len(),
{
    reveal(Seq::filter);
    if s.len() > 0 {
        let u = s.drop_last();
        assert forall|i: int, j: int| 0 <= i < u.len() && 0 <= j < u.len() && i != j implies u[i].0
            != u[j].0 by {
            assert(u[i] == s[i] && u[j] == s[j]);
        }
        lemma_filter_keeps_distinct_ids(u, p);
        let fu = u.filter(p);
        assert forall|k: int| 0 <= k < fu.len() implies s.contains(#[trigger] fu[k]) by {
            let w = choose|w: int| 0 <= w < u.len() && u[w] == fu[k];
            assert(s[w] == u[w]);
        }
        if p(s.last()) {
            let out = fu.push(s.last());
            assert forall|i: int, j: int|
                0 <= i < out.len() && 0 <= j < out.len() && i != j implies out[i].0 != out[j].0 by {
                if i < fu.len() && j < fu.len() {
                    assert(out[i] == fu[i] && out[j] == fu[j]);
                } else if i < fu.len() {
                    let w = choose|w: int| 0 <= w < u.len() && u[w] == fu[i];
                    assert(s[w] == u[w]);
                    assert(s[s.len() - 1] == s.last());
                } else {
                    let w = choose|w: int| 0 <= w < u.len() && u[w] == fu[j];
                    assert(s[w] == u[w]);
                    assert(s[s.len() - 1] == s.last());
                }
            }
            assert forall|k: int| 0 <= k < out.len() implies s.contains(#[trigger] out[k]) by {
                if k == fu.len() {
                    assert(s[s.len() - 1] == s.last());
                } else {
                    assert(out[k] == fu[k]);
                }
            }
        }
    }
}

/// What the game reports about the player's items: the counts behind the
/// potion stand-ins, and for each form spec asked about, whether the player
/// has that item or spell and how many of it.
#[derive(Clone, Debug)]
pub struct Inventory {
    pub health_potions: u32,
    pub magicka_potions: u32,
    pub stamina_potions: u32,
    pub items: Vec<(String, bool, u32)>,
}

/// The item facts as values.
pub open spec fn facts_view(items: Seq<(String, bool, u32)>) -> Seq<(Seq<char>, bool, u32)> {
    items.map_values(|e: (String, bool, u32)| (e.0@, e.1, e.2))
}

/// What the game reports for a spec: the first entry for it, else nothing held.
pub open spec fn facts_for(items: Seq<(Seq<char>, bool, u32)>, spec: Seq<char>) -> (bool, u32)
    decreases items.len(),
{
    if items.len() == 0 {
        (false, 0)
    } else if items[0].0 == spec {
        (items[0].1, items[0].2)
    } else {
        facts_for(items.skip(1), spec)
    }
}

/// Whether an entry stays in its cycle when the cycles are checked against
/// the inventory: the player has it, or holds a positive count of it; the
/// potion stand-ins count the potions behind them, and bare hands are always held.
pub open spec fn still_held(
    health: u32,
    magicka: u32,
    stamina: u32,
    items: Seq<(Seq<char>, bool, u32)>,
    spec: Seq<char>,
) -> bool {
    let (has, count) = facts_for(items, spec);
    has || (if spec == "health_proxy"@ {
        health > 0
    } else if spec == "magicka_proxy"@ {
        magicka > 0
    } else if spec == "stamina_proxy"@ {
        stamina > 0
    } else if spec == "unarmed_proxy"@ {
        true
    } else {
        count > 0
    })
}

/// The predicate "still held" for one inventory.
pub open spec fn held_in(inv: Inventory) -> spec_fn(Seq<char>) -> bool {
    |spec: Seq<char>|
        still_held(
            inv.health_potions,
            inv.magicka_potions,
            inv.stamina_potions,
            facts_view(inv.items@),
            spec,
        )
}

/// What the game reports for a spec.
fn facts_lookup(items: &Vec<(String, bool, u32)>, spec: &String) -> (r: (bool, u32))
    ensures
        r == facts_for(facts_view(items@), spec@),
{
    let ghost t = facts_view(items@);
    let mut i: usize = 0;
    assert(t.skip(0) =~= t);
    while i < items.len()
        invariant
            i <= items@.len(),
            t == facts_view(items@),
            facts_for(t, spec@) == facts_for(t.skip(i as int), spec@),
        decreases items.len() - i,
    {
        assert(t.skip(i as int).skip(1) =~= t.skip(i + 1));
        assert(t.skip(i as int)[0] == (items@[i as int].0@, items@[i as int].1, items@[i as int].2));
        if items[i].0 == *spec {
            return (items[i].1, items[i].2);
        }
        i += 1;
    }
    (false, 0)
}

/// Whether an entry stays in its cycle.
fn is_still_held(inv: &Inventory, spec: &String) -> (r: bool)
    ensures
        r == held_in(*inv)(spec@),
{
    let (has, count) = facts_lookup(&inv.items, spec);
    has || (if same_text(spec.as_str(), "health_proxy") {
        inv.health_potions > 0
    } else if same_text(spec.as_str(), "magicka_proxy") {
        inv.magicka_potions > 0
    } else if same_text(spec.as_str(), "stamina_proxy") {
        inv.stamina_potions > 0
    } else if same_text(spec.as_str(), "unarmed_proxy") {
        true
    } else {
        count > 0
    })
}

/// Keep the entries of a cycle that the player still holds.
fn keep_held(cycle: &mut Vec<String>, inv: &Inventory)
    ensures
        entry_views(final(cycle)@) == entry_views(old(cycle)@).filter(held_in(*inv)),
{
    let ghost s = entry_views(cycle@);
    let mut out: Vec<String> = Vec::new();
    let mut i: usize = 0;
    while i < cycle.len()
        invariant
            i <= cycle@.len(),
            s == entry_views(cycle@),
            entry_views(out@) == s.take(i as int).filter(held_in(*inv)),
        decreases cycle.len() - i,
    {
        proof {
            reveal(Seq::filter);
            assert(s.take(i + 1).drop_last() =~= s.take(i as int));
            assert(s.take(i + 1).last() == cycle@[i as int]@);
        }
        let ghost before = entry_views(out@);
        if is_still_held(inv, &cycle[i]) {
            out.push(cycle[i].clone());
            assert(entry_views(out@) =~= before.push(cycle@[i as int]@));
        }
        i += 1;
    }
    assert(s.take(cycle.len() as int) =~= s);
    *cycle = out;
}

impl CycleData {
    /// Remove entries the player no longer has, checking every cycle against
    /// what the game reports about the inventory. The equipsets are left as they are.
    pub fn validate(&mut self, inv: &Inventory)
        ensures
            forall|s: CycleSlot| #[trigger] final(self).slot(s) == old(self).slot(s).filter(held_in(*inv)),
            final(self).sets() == old(self).sets(),
            final(self).hud_visible == old(self).hud_visible,
            final(self).loaded == old(self).loaded,
    {
        keep_held(&mut self.power, inv);
        keep_held(&mut self.utility, inv);
        keep_held(&mut self.left, inv);
        keep_held(&mut self.right, inv);
    }
}

/// A cycle rotated by one, then turned to its first entry that differs from
/// `skip`; the entry is returned. A cycle of nothing but `skip` stays rotated
/// and returns nothing; an empty cycle stays as it is.
pub open spec fn skip_rotation(s: Seq<Seq<char>>, skip: Seq<char>) -> (Seq<Seq<char>>, Option<Seq<char>>) {
    if s.len() == 0 {
        (s, None)
    } else {
        let r = rotated(s, 1);
        if exists|k: int| 0 <= k < r.len() && r[k] != skip {
            let k = choose|k: int|
                0 <= k < r.len() && r[k] != skip && forall|j: int| 0 <= j < k ==> r[j] == skip;
            (rotated(r, k), Some(r[k]))
        } else {
            (r, None)
        }
    }
}

impl CycleData {
    /// Advance the given cycle by one, skipping over entries equal to `skip`;
    /// returns the new current entry, if any differs from `skip`.
    pub fn advance_skipping(&mut self, which: &CycleSlot, skip: &str) -> (r: Option<String>)
        ensures
            final(self).slot(*which) == skip_rotation(old(self).slot(*which), skip@).0,
            r.deep_view() == skip_rotation(old(self).slot(*which), skip@).1,
            final(self).same_but(*old(self), *which),
    {
        if self.cycle_len(which) == 0 {
            return None;
        }
        self.advance(which, 1);
        let ghost r0 = self.slot(*which);
        let entries = self.formids(which);
        let target = String::from_str(skip);
        let mut k: usize = 0;
        while k < entries.len()
            invariant
                k <= entries@.len(),
                entries.deep_view() == r0,
                target@ == skip@,
                forall|j: int| 0 <= j < k ==> r0[j] == skip@,
                self.slot(*which) == r0,
                r0 == rotated(old(self).slot(*which), 1),
                old(self).slot(*which).len() > 0,
                self.same_but(*old(self), *which),
            decreases entries.len() - k,
        {
            assert(r0[k as int] == entries@[k as int]@);
            if entries[k] != target {
                let v = entries[k].clone();
                proof {
                    let c = choose|c: int|
                        0 <= c < r0.len() && r0[c] != skip@ && forall|j: int| 0 <= j < c ==> r0[j] == skip@;
                    assert(c == k) by {
                        if c < k {
                            assert(r0[c] == skip@);
                        } else if c > k {
                            assert(r0[k as int] == skip@);
                        }
                    }
                    assert(first_with_id::<String>(r0, v@, k as int));
                }
                self.set_top(which, v.as_str());
                return Some(v);
            }
            k += 1;
        }
        assert(!exists|c: int| 0 <= c < r0.len() && r0[c] != skip@);
        None
    }
}

/// A cycle turned so that its first entry equal to `f` is current; a cycle
/// without `f` stays as it is.
pub open spec fn turned_to(s: Seq<Seq<char>>, f: Seq<char>) -> Seq<Seq<char>> {
    if exists|i: int| first_with_id::<String>(s, f, i) {
        rotated(s, choose|i: int| first_with_id::<String>(s, f, i))
    } else {
        s
    }
}

/// An entry that occurs has a first occurrence.
proof fn lemma_first_occurrence(s: Seq<Seq<char>>, f: Seq<char>)
    requires
        has_id::<String>(s, f),
    ensures
        exists|i: int| first_with_id::<String>(s, f, i),
    decreases s.len(),
{
    if s[0] == f {
        assert(first_with_id::<String>(s, f, 0));
    } else {
        let u = s.skip(1);
        let w = choose|w: int| 0 <= w < s.len() && s[w] == f;
        assert(u[w - 1] == f);
        lemma_first_occurrence(u, f);
        let i = choose|i: int| first_with_id::<String>(u, f, i);
        assert forall|j: int| 0 <= j < i + 1 implies s[j] != f by {
            if j > 0 {
                assert(s[j] == u[j - 1]);
            }
        }
        assert(first_with_id::<String>(s, f, i + 1));
    }
}

impl CycleData {
    /// Make the first entry equal to `f` current in the given cycle.
    pub fn turn_to(&mut self, which: &CycleSlot, f: &str)
        ensures
            final(self).slot(*which) == turned_to(old(self).slot(*which), f@),
            final(self).same_but(*old(self), *which),
    {
        proof {
            if has_id::<String>(self.slot(*which), f@) {
                lemma_first_occurrence(self.slot(*which), f@);
            }
        }
        self.set_top(which, f);
    }
}

/// The right-hand cycle takes every spell, every scroll and bare hands;
/// the powers cycle takes powers and every shout.
pub proof fn lemma_cycles_take(spell: crate::data::spell::SpellType, shout: crate::data::shout::ShoutType)
    ensures
        slot_accepts(CycleSlot::Right, BaseType::Spell(spell)),
        slot_accepts(CycleSlot::Right, BaseType::Scroll(spell)),
        slot_accepts(CycleSlot::Right, BaseType::HandToHand),
        slot_accepts(CycleSlot::Power, BaseType::Power),
        slot_accepts(CycleSlot::Power, BaseType::Shout(shout)),
        !slot_accepts(CycleSlot::Power, BaseType::Spell(spell)),
        !slot_accepts(CycleSlot::Utility, BaseType::Spell(spell)),
{
}

} // verus!
