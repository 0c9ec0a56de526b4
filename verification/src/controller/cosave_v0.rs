//! Saved cycles, format version 0: whole items were saved; only their form
//! specs are read back.

use vstd::prelude::*;

use super::cosave_v2::{restore_cycle, restored_cycle, table_view};
use super::cycleentries::{entry_views, join_strings, EquipSet, SetView};
use super::cycles::CycleData;
use super::keys::CycleSlot;

verus! {

/// The format version this module reads.
pub const VERSION: u8 = 0;

/// An item as saved in this format.
#[derive(Clone, Debug, Default)]
pub struct ItemSerialized {
    pub name_bytes: Vec<u8>,
    pub form_string: String,
    pub kind: u8,
    pub two_handed: bool,
    pub has_count: bool,
    pub count: u32,
}

/// Cycles as saved in this format.
#[derive(Clone, Debug)]
pub struct CycleSerialized {
    pub left: Vec<ItemSerialized>,
    pub right: Vec<ItemSerialized>,
    pub power: Vec<ItemSerialized>,
    pub utility: Vec<ItemSerialized>,
    pub hud_visible: bool,
}

/// The form specs of saved items, in order.
pub open spec fn item_specs(items: Seq<ItemSerialized>) -> Seq<Seq<char>> {
    items.map_values(|e: ItemSerialized| e.form_string@)
}

/// The form specs of saved items.
fn specs_of(items: &Vec<ItemSerialized>) -> (r: Vec<String>)
    ensures
        r.deep_view() == item_specs(items@),
{
    let mut out: Vec<String> = Vec::new();
    let mut i: usize = 0;
    while i < items.len()
        invariant
            i <= items@.len(),
            out.deep_view() =~= item_specs(items@).take(i as int),
        decreases items.len() - i,
    {
        let ghost before = out.deep_view();
        let s = items[i].form_string.clone();
        out.push(s);
        assert(out.deep_view() =~= before.push(items@[i as int].form_string@));
        i += 1;
    }
    out
}

impl CycleSerialized {
    /// Load saved cycles, with no equipsets. `table` holds, for each spec the
    /// game still knows, the spec it reports for that item.
    pub fn into_cycles(&self, table: &Vec<(String, String)>) -> (r: CycleData)
        ensures
            r.slot(CycleSlot::Left) == restored_cycle(table_view(table@), item_specs(self.left@)),
            r.slot(CycleSlot::Right) == restored_cycle(table_view(table@), item_specs(self.right@)),
            r.slot(CycleSlot::Power) == restored_cycle(table_view(table@), item_specs(self.power@)),
            r.slot(CycleSlot::Utility) == restored_cycle(table_view(table@), item_specs(self.utility@)),
            r.sets() == Seq::<SetView>::empty(),
            r.hud_visible == self.hud_visible,
            r.loaded,
    {
        let r = CycleData {
            left: restore_cycle(table, &specs_of(&self.left)),
            right: restore_cycle(table, &specs_of(&self.right)),
            power: restore_cycle(table, &specs_of(&self.power)),
            utility: restore_cycle(table, &specs_of(&self.utility)),
            equipsets: Vec::<EquipSet>::new(),
            hud_visible: self.hud_visible,
            loaded: true,
        };
        assert(r.left.deep_view() =~= entry_views(r.left@));
        assert(r.right.deep_view() =~= entry_views(r.right@));
        assert(r.power.deep_view() =~= entry_views(r.power@));
        assert(r.utility.deep_view() =~= entry_views(r.utility@));
        assert(r.sets() =~= Seq::<SetView>::empty());
        r
    }
}

/// What `decode_saved_v0` reads from bytes: the items of the four cycles,
/// each as its name bytes, form spec, kind number, grip, whether its count
/// matters and its count, and the visibility; nothing when bincode refuses
/// the bytes.
pub uninterp spec fn saved_v0_decoding(bytes: Seq<u8>) -> Option<
    (
        Seq<(Seq<u8>, Seq<char>, u8, bool, bool, u32)>,
        Seq<(Seq<u8>, Seq<char>, u8, bool, bool, u32)>,
        Seq<(Seq<u8>, Seq<char>, u8, bool, bool, u32)>,
        Seq<(Seq<u8>, Seq<char>, u8, bool, bool, u32)>,
        bool,
    ),
>;

/// Calls `bincode::decode_from_slice` with `bincode::config::standard()`,
/// limited to 256 MiB of allocation so that a corrupt length is refused
/// instead of exhausting memory, reading the tuple of the four item lists
/// and the visibility; bytes after the tuple are ignored. The contract
/// claims only that the result is what `saved_v0_decoding` names for the
/// bytes.
#[verifier::external_body]
fn decode_saved_v0(bytes: &[u8]) -> (r: Option<
    (
        Vec<(Vec<u8>, String, u8, bool, bool, u32)>,
        Vec<(Vec<u8>, String, u8, bool, bool, u32)>,
        Vec<(Vec<u8>, String, u8, bool, bool, u32)>,
        Vec<(Vec<u8>, String, u8, bool, bool, u32)>,
        bool,
    ),
>)
    ensures
        r.deep_view() == saved_v0_decoding(bytes@),
{
    let config = bincode::config::standard().with_limit::<268435456>();
    match bincode::decode_from_slice(bytes, config) {
        Ok((value, _)) => Some(value),
        Err(_) => None,
    }
}

/// The form specs of decoded items, in order.
pub open spec fn decoded_specs(items: Seq<(Seq<u8>, Seq<char>, u8, bool, bool, u32)>) -> Seq<Seq<char>> {
    items.map_values(|e: (Seq<u8>, Seq<char>, u8, bool, bool, u32)| e.1)
}

/// Decoded items as saved items.
fn items_of(v: &Vec<(Vec<u8>, String, u8, bool, bool, u32)>) -> (r: Vec<ItemSerialized>)
    ensures
        item_specs(r@) == decoded_specs(v.deep_view()),
{
    let ghost d = decoded_specs(v.deep_view());
    let mut out: Vec<ItemSerialized> = Vec::new();
    let mut i: usize = 0;
    while i < v.len()
        invariant
            i <= v@.len(),
            d == decoded_specs(v.deep_view()),
            item_specs(out@) =~= d.take(i as int),
        decreases v.len() - i,
    {
        let e = &v[i];
        let item = ItemSerialized {
            name_bytes: e.0.clone(),
            form_string: e.1.clone(),
            kind: e.2,
            two_handed: e.3,
            has_count: e.4,
            count: e.5,
        };
        let ghost before = item_specs(out@);
        out.push(item);
        proof {
            assert(v.deep_view()[i as int] == v@[i as int].deep_view());
            assert(item_specs(out@) =~= before.push(v@[i as int].1@));
            assert(d.take(i + 1) =~= d.take(i as int).push(d[i as int]));
        }
        i += 1;
    }
    assert(d.take(v.len() as int) =~= d);
    out
}

/// The cycles `c` are what loading the saved values `d` gives with lookup
/// table `t`: each cycle restored from its items' form specs through the
/// table, no equipsets, the visibility as saved, and marked as loaded.
pub open spec fn loaded_from(
    d: (
        Seq<(Seq<u8>, Seq<char>, u8, bool, bool, u32)>,
        Seq<(Seq<u8>, Seq<char>, u8, bool, bool, u32)>,
        Seq<(Seq<u8>, Seq<char>, u8, bool, bool, u32)>,
        Seq<(Seq<u8>, Seq<char>, u8, bool, bool, u32)>,
        bool,
    ),
    t: Seq<(Seq<char>, Seq<char>)>,
    c: CycleData,
) -> bool {
    &&& c.slot(CycleSlot::Left) == restored_cycle(t, decoded_specs(d.0))
    &&& c.slot(CycleSlot::Right) == restored_cycle(t, decoded_specs(d.1))
    &&& c.slot(CycleSlot::Power) == restored_cycle(t, decoded_specs(d.2))
    &&& c.slot(CycleSlot::Utility) == restored_cycle(t, decoded_specs(d.3))
    &&& c.sets() == Seq::<SetView>::empty()
    &&& c.hud_visible == d.4
    &&& c.loaded
}

/// Read cycles saved in this format. `table` holds, for each spec the game
/// still knows, the spec it reports for that item. Bytes that bincode
/// refuses give nothing.
pub fn deserialize(bytes: &[u8], table: &Vec<(String, String)>) -> (r: Option<CycleData>)
    ensures
        match saved_v0_decoding(bytes@) {
            None => r is None,
            Some(d) => r matches Some(c) && loaded_from(d, table_view(table@), c),
        },
{
    match decode_saved_v0(bytes) {
        None => None,
        Some(decoded) => {
            let s = CycleSerialized {
                left: items_of(&decoded.0),
                right: items_of(&decoded.1),
                power: items_of(&decoded.2),
                utility: items_of(&decoded.3),
                hud_visible: decoded.4,
            };
            Some(s.into_cycles(table))
        },
    }
}

/// The form specs saved in bytes of this format, the left, right, power
/// and utility cycles in turn; nothing when bincode refuses the bytes.
pub fn saved_specs(bytes: &[u8]) -> (r: Option<Vec<String>>)
    ensures
        r.deep_view() == match saved_v0_decoding(bytes@) {
            Some(d) => Some(decoded_specs(d.0) + decoded_specs(d.1) + decoded_specs(d.2) + decoded_specs(d.3)),
            None => None,
        },
{
    match decode_saved_v0(bytes) {
        None => None,
        Some(decoded) => {
            let left = specs_of(&items_of(&decoded.0));
            let right = specs_of(&items_of(&decoded.1));
            let power = specs_of(&items_of(&decoded.2));
            let utility = specs_of(&items_of(&decoded.3));
            Some(join_strings(join_strings(join_strings(left, right), power), utility))
        },
    }
}

} // verus!
