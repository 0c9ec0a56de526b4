//! Saved cycles, format version 1: the form specs of the four cycles and
//! whether the HUD was visible; no equipment sets.

use vstd::prelude::*;

use super::cosave_v2::{restore_cycle, restored_cycle, table_view};
use super::cycleentries::{copy_strings, entry_views, join_strings, EquipSet, SetView};
use super::cycles::CycleData;
use super::keys::CycleSlot;

verus! {

/// The format version this module reads and writes.
pub const VERSION: u32 = 1;

/// Cycles as saved in this format.
#[derive(Clone, Debug)]
pub struct CycleSerialized {
    pub left: Vec<String>,
    pub right: Vec<String>,
    pub power: Vec<String>,
    pub utility: Vec<String>,
    pub hud_visible: bool,
}

impl CycleSerialized {
    /// The saved form of the cycles; equipsets are not saved in this format.
    pub fn from_cycles(value: &CycleData) -> (r: CycleSerialized)
        ensures
            r.left.deep_view() == value.slot(CycleSlot::Left),
            r.right.deep_view() == value.slot(CycleSlot::Right),
            r.power.deep_view() == value.slot(CycleSlot::Power),
            r.utility.deep_view() == value.slot(CycleSlot::Utility),
            r.hud_visible == value.hud_visible,
    {
        assert(value.left.deep_view() =~= entry_views(value.left@));
        assert(value.right.deep_view() =~= entry_views(value.right@));
        assert(value.power.deep_view() =~= entry_views(value.power@));
        assert(value.utility.deep_view() =~= entry_views(value.utility@));
        CycleSerialized {
            left: copy_strings(&value.left),
            right: copy_strings(&value.right),
            power: copy_strings(&value.power),
            utility: copy_strings(&value.utility),
            hud_visible: value.hud_visible,
        }
    }

    /// Load saved cycles, with no equipsets. `table` holds, for each spec the
    /// game still knows, the spec it reports for that item.
    pub fn into_cycles(&self, table: &Vec<(String, String)>) -> (r: CycleData)
        ensures
            r.slot(CycleSlot::Left) == restored_cycle(table_view(table@), self.left.deep_view()),
            r.slot(CycleSlot::Right) == restored_cycle(table_view(table@), self.right.deep_view()),
            r.slot(CycleSlot::Power) == restored_cycle(table_view(table@), self.power.deep_view()),
            r.slot(CycleSlot::Utility) == restored_cycle(table_view(table@), self.utility.deep_view()),
            r.sets() == Seq::<SetView>::empty(),
            r.hud_visible == self.hud_visible,
            r.loaded,
    {
        let r = CycleData {
            left: restore_cycle(table, &self.left),
            right: restore_cycle(table, &self.right),
            power: restore_cycle(table, &self.power),
            utility: restore_cycle(table, &self.utility),
            equipsets: Vec::<EquipSet>::new(),
            hud_visible: self.hud_visible,
            loaded: true,
        };
        assert(r.left.deep_view() =~= entry_views(r.left@));
        assert(r.right.deep_view() =~= entry_views(r.right@));
        assert(r.power.deep_view() =~= entry_views(r.power@));
        assert(r.utility.deep_view() =~= entry_views(r.utility@));
        assert(r.sets() =~= Seq::<SetView>::empty());
        r
    }
}

/// What `decode_saved_v1` reads from bytes: the four cycles and the
/// visibility, or nothing when bincode refuses the bytes.
pub uninterp spec fn saved_v1_decoding(bytes: Seq<u8>) -> Option<
    (Seq<Seq<char>>, Seq<Seq<char>>, Seq<Seq<char>>, Seq<Seq<char>>, bool),
>;

/// Calls `bincode::decode_from_slice` with `bincode::config::standard()`,
/// limited to 256 MiB of allocation so that a corrupt length is refused
/// instead of exhausting memory, reading the tuple of the four cycles and
/// the visibility; bytes after the tuple are ignored. The contract claims
/// only that the result is what `saved_v1_decoding` names for the bytes.
#[verifier::external_body]
fn decode_saved_v1(bytes: &[u8]) -> (r: Option<(Vec<String>, Vec<String>, Vec<String>, Vec<String>, bool)>)
    ensures
        r.deep_view() == saved_v1_decoding(bytes@),
{
    let config = bincode::config::standard().with_limit::<268435456>();
    match bincode::decode_from_slice(bytes, config) {
        Ok((value, _)) => Some(value),
        Err(_) => None,
    }
}

/// The cycles `c` are what loading the saved values `d` gives with lookup
/// table `t`: each cycle restored through the table, no equipsets, the
/// visibility as saved, and marked as loaded.
pub open spec fn loaded_from(
    d: (Seq<Seq<char>>, Seq<Seq<char>>, Seq<Seq<char>>, Seq<Seq<char>>, bool),
    t: Seq<(Seq<char>, Seq<char>)>,
    c: CycleData,
) -> bool {
    &&& c.slot(CycleSlot::Left) == restored_cycle(t, d.0)
    &&& c.slot(CycleSlot::Right) == restored_cycle(t, d.1)
    &&& c.slot(CycleSlot::Power) == restored_cycle(t, d.2)
    &&& c.slot(CycleSlot::Utility) == restored_cycle(t, d.3)
    &&& c.sets() == Seq::<SetView>::empty()
    &&& c.hud_visible == d.4
    &&& c.loaded
}

/// Read cycles saved in this format. `table` holds, for each spec the game
/// still knows, the spec it reports for that item. Bytes that bincode
/// refuses give nothing.
pub fn deserialize(bytes: &[u8], table: &Vec<(String, String)>) -> (r: Option<CycleData>)
    ensures
        match saved_v1_decoding(bytes@) {
            None => r is None,
            Some(d) => r matches Some(c) && loaded_from(d, table_view(table@), c),
        },
{
    match decode_saved_v1(bytes) {
        None => None,
        Some(decoded) => {
            let (left, right, power, utility, hud_visible) = decoded;
            let s = CycleSerialized { left, right, power, utility, hud_visible };
            Some(s.into_cycles(table))
        },
    }
}

/// The form specs saved in bytes of this format, the left, right, power
/// and utility cycles in turn; nothing when bincode refuses the bytes.
pub fn saved_specs(bytes: &[u8]) -> (r: Option<Vec<String>>)
    ensures
        r.deep_view() == match saved_v1_decoding(bytes@) {
            Some(d) => Some(d.0 + d.1 + d.2 + d.3),
            None => None,
        },
{
    match decode_saved_v1(bytes) {
        None => None,
        Some(decoded) => {
            let (left, right, power, utility, _visible) = decoded;
            Some(join_strings(join_strings(join_strings(left, right), power), utility))
        },
    }
}

} // verus!
