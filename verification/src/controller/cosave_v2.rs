//! Saved cycles, format version 2: the form specs of the four cycles, the
//! equipment sets, and whether the HUD was visible. Loading keeps the
//! stand-in entries, drops empty specs, and keeps other entries only when the
//! game still knows the item, under the spec the game reports for it.

use vstd::prelude::*;

use super::cycleentries::{copy_slots, copy_strings, entry_views, join_strings, EquipSet, SetView};
use super::cycles::CycleData;
use super::keys::CycleSlot;
use crate::text::same_text;

verus! {

/// The format version this module reads and writes.
pub const VERSION: u32 = 2;

/// The icon name saved for every equipment set.
pub const SAVED_SET_ICON: &'static str = "ArmorHeavy";

/// Cycles as saved: plain strings and numbers only. Each equipset is saved
/// as its id, name, item specs, empty armor slots and icon name.
#[derive(Clone, Debug)]
pub struct CycleSerialized {
    pub left: Vec<String>,
    pub right: Vec<String>,
    pub power: Vec<String>,
    pub utility: Vec<String>,
    pub equipsets: Vec<(u32, String, Vec<String>, Vec<u8>, String)>,
    pub hud_visible: bool,
}

/// The saved form of equipsets, as values: each set with its id, name,
/// items and empty armor slots, and the saved icon name.
pub open spec fn saved_sets_view(sets: Seq<SetView>) -> Seq<(u32, Seq<char>, Seq<Seq<char>>, Seq<u8>, Seq<char>)> {
    sets.map_values(|e: SetView| (e.0, e.1, e.2, e.3, SAVED_SET_ICON@))
}

/// What bincode's `encode_to_vec`, with its standard configuration, makes of
/// the tuple of the four saved cycles, the saved equipsets and the
/// visibility flag.
pub uninterp spec fn cosave_encoding(
    left: Seq<Seq<char>>,
    right: Seq<Seq<char>>,
    power: Seq<Seq<char>>,
    utility: Seq<Seq<char>>,
    sets: Seq<(u32, Seq<char>, Seq<Seq<char>>, Seq<u8>, Seq<char>)>,
    hud_visible: bool,
) -> Seq<u8>;

/// The bytes the cycles are saved as: the encoding of their saved form.
pub open spec fn cycles_bytes(c: CycleData) -> Seq<u8> {
    cosave_encoding(
        c.slot(CycleSlot::Left),
        c.slot(CycleSlot::Right),
        c.slot(CycleSlot::Power),
        c.slot(CycleSlot::Utility),
        saved_sets_view(c.sets()),
        c.hud_visible,
    )
}

/// A bound on the bytes bincode's standard encoding takes for a list of
/// texts: at most nine for the length of the list, and for each text at
/// most nine for its length and four for each of its characters.
pub open spec fn texts_size(v: Seq<Seq<char>>) -> nat
    decreases v.len(),
{
    if v.len() == 0 {
        9
    } else {
        texts_size(v.drop_last()) + 9 + 4 * v.last().len()
    }
}

/// A bound on the bytes bincode's standard encoding takes for saved
/// equipsets: at most nine for the length of the list, and for each set
/// at most five for its id, its name, items, empty slots and icon name as
/// texts and bytes with their lengths.
pub open spec fn sets_size(v: Seq<(u32, Seq<char>, Seq<Seq<char>>, Seq<u8>, Seq<char>)>) -> nat
    decreases v.len(),
{
    if v.len() == 0 {
        9
    } else {
        let e = v.last();
        sets_size(v.drop_last()) + 5 + (9 + 4 * e.1.len()) + texts_size(e.2) + (9 + e.3.len()) + (9 + 4
            * e.4.len())
    }
}

/// A bound on the bytes the saved values take: the four cycles, the
/// equipsets, and one byte for the visibility flag.
pub open spec fn saved_size(
    left: Seq<Seq<char>>,
    right: Seq<Seq<char>>,
    power: Seq<Seq<char>>,
    utility: Seq<Seq<char>>,
    sets: Seq<(u32, Seq<char>, Seq<Seq<char>>, Seq<u8>, Seq<char>)>,
) -> nat {
    texts_size(left) + texts_size(right) + texts_size(power) + texts_size(utility) + sets_size(sets) + 1
}

/// The most that decoding may set aside for bytes of the given length:
/// 32 MiB for up to 1 MiB of bytes, and just under 2 GiB beyond.
pub open spec fn claim_limit(len: nat) -> nat {
    if len <= 1048576 {
        33554432
    } else {
        2147483647
    }
}

/// bincode's encoding error.
#[verifier::external_type_specification]
#[verifier::external_body]
pub struct ExEncodeError(bincode::error::EncodeError);

/// Calls `bincode::encode_to_vec` with `bincode::config::standard()` on the
/// tuple `(left, right, power, utility, sets, hud_visible)`. As the source
/// shows, encoding these values never fails: its writer only appends, and
/// texts, lists, numbers and flags have no failing case. The contract claims
/// that the bytes are those `cosave_encoding` names for the values; that they
/// take no more than `saved_size` (each length and id is a variable-length
/// integer of at most nine bytes, a flag one byte, and a character at most
/// four bytes of UTF-8); and that decoding them with any allocation limit of
/// at least 32 bytes per byte, up to just under 2 GiB, reads the same
/// values back: bincode decodes the tuple field by field as it encodes it,
/// and while decoding it sets aside at most the size of a text (three
/// machine words) for each byte not yet read, and one byte for each byte of
/// text read. Nothing else is said of the byte format.
#[verifier::external_body]
fn encode_saved(
    left: &Vec<String>,
    right: &Vec<String>,
    power: &Vec<String>,
    utility: &Vec<String>,
    sets: &Vec<(u32, String, Vec<String>, Vec<u8>, String)>,
    hud_visible: bool,
) -> (r: Result<Vec<u8>, bincode::error::EncodeError>)
    ensures
        r is Ok,
        r is Ok ==> r->Ok_0@ == cosave_encoding(
            left.deep_view(),
            right.deep_view(),
            power.deep_view(),
            utility.deep_view(),
            sets.deep_view(),
            hud_visible,
        ),
        r is Ok ==> r->Ok_0@.len() <= saved_size(
            left.deep_view(),
            right.deep_view(),
            power.deep_view(),
            utility.deep_view(),
            sets.deep_view(),
        ),
        r is Ok ==> forall|limit: nat|
            32 * r->Ok_0@.len() <= limit <= 2147483647 ==> #[trigger] v2_decoding_within(r->Ok_0@, limit)
                == Some(
                (
                    left.deep_view(),
                    right.deep_view(),
                    power.deep_view(),
                    utility.deep_view(),
                    sets.deep_view(),
                    hud_visible,
                ),
            ),
{
    bincode::encode_to_vec((left, right, power, utility, sets, hud_visible), bincode::config::standard())
}

/// Whether a spec names one of the stand-in entries that no game item backs.
pub open spec fn is_stand_in(spec: Seq<char>) -> bool {
    spec == "health_proxy"@ || spec == "magicka_proxy"@ || spec == "stamina_proxy"@ || spec
        == "unarmed_proxy"@
}

/// What the game reports for a spec, by the first entry of the lookup table for it.
pub open spec fn looked_up(table: Seq<(Seq<char>, Seq<char>)>, spec: Seq<char>) -> Option<Seq<char>>
    decreases table.len(),
{
    if table.len() == 0 {
        None
    } else if table[0].0 == spec {
        Some(table[0].1)
    } else {
        looked_up(table.skip(1), spec)
    }
}

/// What becomes of one saved spec on loading: stand-ins stay, an empty spec
/// goes, and any other spec becomes what the game reports for it, if anything.
pub open spec fn restored_spec(table: Seq<(Seq<char>, Seq<char>)>, spec: Seq<char>) -> Option<Seq<char>> {
    if is_stand_in(spec) {
        Some(spec)
    } else if spec.len() == 0 {
        None
    } else {
        looked_up(table, spec)
    }
}

/// The specs of a saved cycle after loading, in order.
pub open spec fn restored_cycle(table: Seq<(Seq<char>, Seq<char>)>, specs: Seq<Seq<char>>) -> Seq<Seq<char>>
    decreases specs.len(),
{
    if specs.len() == 0 {
        Seq::empty()
    } else {
        let rest = restored_cycle(table, specs.drop_last());
        match restored_spec(table, specs.last()) {
            Some(s) => rest.push(s),
            None => rest,
        }
    }
}

/// The value of a saved equipset, as the equipset it loads into.
pub open spec fn saved_set_view(e: (u32, String, Vec<String>, Vec<u8>, String)) -> SetView {
    (e.0, e.1@, e.2.deep_view(), e.3@)
}

/// The lookup table as values.
pub open spec fn table_view(table: Seq<(String, String)>) -> Seq<(Seq<char>, Seq<char>)> {
    table.map_values(|e: (String, String)| (e.0@, e.1@))
}

/// Whether a spec names a stand-in entry.
fn stand_in(spec: &String) -> (r: bool)
    ensures
        r == is_stand_in(spec@),
{
    same_text(spec.as_str(), "health_proxy") || same_text(spec.as_str(), "magicka_proxy")
        || same_text(spec.as_str(), "stamina_proxy") || same_text(spec.as_str(), "unarmed_proxy")
}

/// What the game reported for a spec, from the lookup table.
pub fn look_up(table: &Vec<(String, String)>, spec: &String) -> (r: Option<String>)
    ensures
        r.deep_view() == looked_up(table_view(table@), spec@),
{
    let ghost t = table_view(table@);
    let mut i: usize = 0;
    assert(t.skip(0) =~= t);
    while i < table.len()
        invariant
            i <= table@.len(),
            t == table_view(table@),
            looked_up(t, spec@) == looked_up(t.skip(i as int), spec@),
        decreases table.len() - i,
    {
        assert(t.skip(i as int).skip(1) =~= t.skip(i + 1));
        assert(t.skip(i as int)[0] == (table@[i as int].0@, table@[i as int].1@));
        if table[i].0 == *spec {
            return Some(table[i].1.clone());
        }
        i += 1;
    }
    None
}

/// Load the specs of one saved cycle.
pub fn restore_cycle(table: &Vec<(String, String)>, specs: &Vec<String>) -> (r: Vec<String>)
    ensures
        r.deep_view() == restored_cycle(table_view(table@), specs.deep_view()),
{
    let ghost t = table_view(table@);
    let ghost ss = specs.deep_view();
    let mut out: Vec<String> = Vec::new();
    let mut i: usize = 0;
    while i < specs.len()
        invariant
            i <= specs@.len(),
            t == table_view(table@),
            ss == specs.deep_view(),
            out.deep_view() == restored_cycle(t, ss.take(i as int)),
        decreases specs.len() - i,
    {
        assert(ss.take(i + 1).drop_last() =~= ss.take(i as int));
        assert(ss.take(i + 1).last() == specs@[i as int]@);
        let spec = &specs[i];
        let ghost before = out.deep_view();
        if stand_in(spec) {
            out.push(spec.clone());
            assert(out.deep_view() =~= before.push(spec@));
        } else if spec.unicode_len() == 0 {
        } else {
            match look_up(table, spec) {
                Some(found) => {
                    let ghost f = found@;
                    out.push(found);
                    assert(out.deep_view() =~= before.push(f));
                },
                None => {},
            }
        }
        i += 1;
    }
    assert(ss.take(specs.len() as int) =~= ss);
    out
}

/// Copy the saved equipsets into equipsets.
fn restore_sets(saved: &Vec<(u32, String, Vec<String>, Vec<u8>, String)>) -> (r: Vec<EquipSet>)
    ensures
        entry_views(r@) == saved@.map_values(|e: (u32, String, Vec<String>, Vec<u8>, String)| saved_set_view(e)),
{
    let mut out: Vec<EquipSet> = Vec::new();
    let mut i: usize = 0;
    while i < saved.len()
        invariant
            i <= saved@.len(),
            entry_views(out@) =~= saved@.map_values(
                |e: (u32, String, Vec<String>, Vec<u8>, String)| saved_set_view(e),
            ).take(i as int),
        decreases saved.len() - i,
    {
        let e = &saved[i];
        let set = EquipSet::new_with_slots(e.0, e.1.clone(), copy_strings(&e.2), copy_slots(&e.3));
        let ghost before = entry_views(out@);
        assert(set@ == saved_set_view(saved@[i as int]));
        out.push(set);
        assert(entry_views(out@) =~= before.push(saved_set_view(saved@[i as int])));
        i += 1;
    }
    out
}

/// Copy the equipsets into their saved form.
fn save_sets(sets: &Vec<EquipSet>) -> (r: Vec<(u32, String, Vec<String>, Vec<u8>, String)>)
    ensures
        r@.map_values(|e: (u32, String, Vec<String>, Vec<u8>, String)| saved_set_view(e))
            == entry_views(sets@),
        forall|i: int| 0 <= i < r@.len() ==> (#[trigger] r@[i]).4@ == SAVED_SET_ICON@,
{
    let mut out: Vec<(u32, String, Vec<String>, Vec<u8>, String)> = Vec::new();
    let mut i: usize = 0;
    while i < sets.len()
        invariant
            i <= sets@.len(),
            out@.map_values(|e: (u32, String, Vec<String>, Vec<u8>, String)| saved_set_view(e))
                =~= entry_views(sets@).take(i as int),
            forall|k: int| 0 <= k < out@.len() ==> (#[trigger] out@[k]).4@ == SAVED_SET_ICON@,
        decreases sets.len() - i,
    {
        let set = &sets[i];
        let items = set.item_specs();
        let saved = (set.id(), set.name(), items, set.empty_slots(), String::from_str(SAVED_SET_ICON));
        proof {
            assert(saved_set_view(saved) == set@);
        }
        let ghost before = out@.map_values(
            |e: (u32, String, Vec<String>, Vec<u8>, String)| saved_set_view(e),
        );
        out.push(saved);
        assert(out@.map_values(|e: (u32, String, Vec<String>, Vec<u8>, String)| saved_set_view(e))
            =~= before.push(set@));
        i += 1;
    }
    out
}

/// The saved form `s` holds the cycles of `c`: the four cycles, the
/// equipsets (with the saved icon name), and whether the
/// HUD was visible.
pub open spec fn saved_as(c: CycleData, s: CycleSerialized) -> bool {
    &&& s.left.deep_view() == c.slot(CycleSlot::Left)
    &&& s.right.deep_view() == c.slot(CycleSlot::Right)
    &&& s.power.deep_view() == c.slot(CycleSlot::Power)
    &&& s.utility.deep_view() == c.slot(CycleSlot::Utility)
    &&& s.equipsets@.map_values(|e: (u32, String, Vec<String>, Vec<u8>, String)| saved_set_view(e)) == c.sets()
    &&& s.equipsets.deep_view() == saved_sets_view(c.sets())
    &&& s.hud_visible == c.hud_visible
}

/// The cycles `d` are what loading the saved form `s` gives with lookup
/// table `t`: each cycle restored through the table, the equipsets and the
/// visibility as saved, and marked as loaded.
pub open spec fn loaded_as(s: CycleSerialized, t: Seq<(Seq<char>, Seq<char>)>, d: CycleData) -> bool {
    &&& d.slot(CycleSlot::Left) == restored_cycle(t, s.left.deep_view())
    &&& d.slot(CycleSlot::Right) == restored_cycle(t, s.right.deep_view())
    &&& d.slot(CycleSlot::Power) == restored_cycle(t, s.power.deep_view())
    &&& d.slot(CycleSlot::Utility) == restored_cycle(t, s.utility.deep_view())
    &&& d.sets() == s.equipsets@.map_values(|e: (u32, String, Vec<String>, Vec<u8>, String)| saved_set_view(e))
    &&& d.hud_visible == s.hud_visible
    &&& d.loaded
}

/// What bincode's `decode_from_slice`, with its standard configuration and
/// the given allocation limit, reads from bytes: the four cycles, the
/// equipsets and the visibility, or nothing when it refuses the bytes.
pub uninterp spec fn v2_decoding_within(bytes: Seq<u8>, limit: nat) -> Option<
    (
        Seq<Seq<char>>,
        Seq<Seq<char>>,
        Seq<Seq<char>>,
        Seq<Seq<char>>,
        Seq<(u32, Seq<char>, Seq<Seq<char>>, Seq<u8>, Seq<char>)>,
        bool,
    ),
>;

/// What saved bytes of this format decode to, with the allocation limit
/// `claim_limit` sets for their length.
pub open spec fn saved_v2_decoding(bytes: Seq<u8>) -> Option<
    (
        Seq<Seq<char>>,
        Seq<Seq<char>>,
        Seq<Seq<char>>,
        Seq<Seq<char>>,
        Seq<(u32, Seq<char>, Seq<Seq<char>>, Seq<u8>, Seq<char>)>,
        bool,
    ),
> {
    v2_decoding_within(bytes, claim_limit(bytes.len()))
}

/// Calls `bincode::decode_from_slice` with `bincode::config::standard()`
/// and the allocation limit `LIMIT`, so that a corrupt length is refused
/// instead of exhausting memory, reading the tuple of the four cycles, the
/// equipsets and the visibility; bytes after the tuple are ignored. The
/// contract claims only that the result is what `v2_decoding_within` names
/// for the bytes and the limit.
#[verifier::external_body]
fn decode_v2_within<const LIMIT: usize>(bytes: &[u8]) -> (r: Option<
    (Vec<String>, Vec<String>, Vec<String>, Vec<String>, Vec<(u32, String, Vec<String>, Vec<u8>, String)>, bool),
>)
    ensures
        r.deep_view() == v2_decoding_within(bytes@, LIMIT as nat),
{
    let config = bincode::config::standard().with_limit::<LIMIT>();
    match bincode::decode_from_slice(bytes, config) {
        Ok((value, _)) => Some(value),
        Err(_) => None,
    }
}

/// Decode saved bytes with the allocation limit `claim_limit` sets for
/// their length.
fn decode_saved_v2(bytes: &[u8]) -> (r: Option<
    (Vec<String>, Vec<String>, Vec<String>, Vec<String>, Vec<(u32, String, Vec<String>, Vec<u8>, String)>, bool),
>)
    ensures
        r.deep_view() == saved_v2_decoding(bytes@),
{
    if bytes.len() <= 1048576 {
        decode_v2_within::<33554432>(bytes)
    } else {
        decode_v2_within::<2147483647>(bytes)
    }
}

/// The values the cycles are saved as: the four cycles, the saved
/// equipsets and the visibility.
pub open spec fn saved_values(c: CycleData) -> (
    Seq<Seq<char>>,
    Seq<Seq<char>>,
    Seq<Seq<char>>,
    Seq<Seq<char>>,
    Seq<(u32, Seq<char>, Seq<Seq<char>>, Seq<u8>, Seq<char>)>,
    bool,
) {
    (
        c.slot(CycleSlot::Left),
        c.slot(CycleSlot::Right),
        c.slot(CycleSlot::Power),
        c.slot(CycleSlot::Utility),
        saved_sets_view(c.sets()),
        c.hud_visible,
    )
}

/// The cycles `c` are what loading the saved values `d` gives with lookup
/// table `t`: each cycle restored through the table, the equipsets with
/// their ids, names and items as saved, the visibility as saved, and marked
/// as loaded.
pub open spec fn loaded_from(
    d: (
        Seq<Seq<char>>,
        Seq<Seq<char>>,
        Seq<Seq<char>>,
        Seq<Seq<char>>,
        Seq<(u32, Seq<char>, Seq<Seq<char>>, Seq<u8>, Seq<char>)>,
        bool,
    ),
    t: Seq<(Seq<char>, Seq<char>)>,
    c: CycleData,
) -> bool {
    &&& c.slot(CycleSlot::Left) == restored_cycle(t, d.0)
    &&& c.slot(CycleSlot::Right) == restored_cycle(t, d.1)
    &&& c.slot(CycleSlot::Power) == restored_cycle(t, d.2)
    &&& c.slot(CycleSlot::Utility) == restored_cycle(t, d.3)
    &&& c.sets() == d.4.map_values(|e: (u32, Seq<char>, Seq<Seq<char>>, Seq<u8>, Seq<char>)| (e.0, e.1, e.2, e.3))
    &&& c.hud_visible == d.5
    &&& c.loaded
}

/// Read cycles saved in this format. `table` holds, for each spec the game
/// still knows, the spec it reports for that item. Bytes that bincode
/// refuses give nothing.
pub fn deserialize(bytes: &[u8], table: &Vec<(String, String)>) -> (r: Option<CycleData>)
    ensures
        match saved_v2_decoding(bytes@) {
            None => r is None,
            Some(d) => r matches Some(c) && loaded_from(d, table_view(table@), c),
        },
{
    match decode_saved_v2(bytes) {
        None => None,
        Some(decoded) => {
            let ghost d = decoded.deep_view();
            let (left, right, power, utility, equipsets, hud_visible) = decoded;
            let s = CycleSerialized { left, right, power, utility, equipsets, hud_visible };
            let c = s.into_cycles(table);
            proof {
                let m = s.equipsets@.map_values(
                    |e: (u32, String, Vec<String>, Vec<u8>, String)| saved_set_view(e),
                );
                let n = d.4.map_values(|e: (u32, Seq<char>, Seq<Seq<char>>, Seq<u8>, Seq<char>)| (e.0, e.1, e.2, e.3));
                assert(s.equipsets.deep_view() == d.4);
                assert(m.len() == n.len());
                assert forall|i: int| 0 <= i < m.len() implies m[i] == n[i] by {
                    assert(s.equipsets.deep_view()[i] == s.equipsets@[i].deep_view());
                }
                assert(m =~= n);
            }
            Some(c)
        },
    }
}

impl CycleSerialized {
    /// The saved form of the cycles.
    pub fn from_cycles(value: &CycleData) -> (r: CycleSerialized)
        ensures
            saved_as(*value, r),
    {
        let r = CycleSerialized {
            left: copy_strings(&value.left),
            right: copy_strings(&value.right),
            power: copy_strings(&value.power),
            utility: copy_strings(&value.utility),
            equipsets: save_sets(&value.equipsets),
            hud_visible: value.hud_visible,
        };
        assert(value.left.deep_view() =~= entry_views(value.left@));
        assert(value.right.deep_view() =~= entry_views(value.right@));
        assert(value.power.deep_view() =~= entry_views(value.power@));
        assert(value.utility.deep_view() =~= entry_views(value.utility@));
        proof {
            let d = r.equipsets.deep_view();
            let w = saved_sets_view(value.sets());
            let m = r.equipsets@.map_values(|e: (u32, String, Vec<String>, Vec<u8>, String)| saved_set_view(e));
            assert(m.len() == r.equipsets@.len());
            assert forall|i: int| 0 <= i < d.len() implies d[i] == w[i] by {
                assert(m[i] == saved_set_view(r.equipsets@[i]));
                assert(r.equipsets@[i].3.deep_view() =~= r.equipsets@[i].3@);
            }
            assert(d =~= w);
        }
        r
    }

    /// The bytes the saved cycles are written as. They take at most
    /// `saved_size` bytes, and read back as the same values when they are
    /// at most 64 MiB less a byte.
    pub fn to_bytes(&self) -> (r: Vec<u8>)
        ensures
            r@ == cosave_encoding(
                self.left.deep_view(),
                self.right.deep_view(),
                self.power.deep_view(),
                self.utility.deep_view(),
                self.equipsets.deep_view(),
                self.hud_visible,
            ),
            r@.len() <= saved_size(
                self.left.deep_view(),
                self.right.deep_view(),
                self.power.deep_view(),
                self.utility.deep_view(),
                self.equipsets.deep_view(),
            ),
            32 * r@.len() <= 2147483647 ==> saved_v2_decoding(r@) == Some(
                (
                    self.left.deep_view(),
                    self.right.deep_view(),
                    self.power.deep_view(),
                    self.utility.deep_view(),
                    self.equipsets.deep_view(),
                    self.hud_visible,
                ),
            ),
    {
        let r = encode_saved(&self.left, &self.right, &self.power, &self.utility, &self.equipsets, self.hud_visible);
        match r {
            Ok(bytes) => {
                proof {
                    let limit = claim_limit(bytes@.len());
                    if 32 * bytes@.len() <= 2147483647 {
                        assert(32 * bytes@.len() <= limit <= 2147483647);
                        assert(v2_decoding_within(bytes@, limit) == Some(
                            (
                                self.left.deep_view(),
                                self.right.deep_view(),
                                self.power.deep_view(),
                                self.utility.deep_view(),
                                self.equipsets.deep_view(),
                                self.hud_visible,
                            ),
                        ));
                    }
                }
                bytes
            },
            Err(_) => Vec::new(),
        }
    }

    /// Load saved cycles. `table` holds, for each spec the game still knows,
    /// the spec it reports for that item.
    pub fn into_cycles(&self, table: &Vec<(String, String)>) -> (r: CycleData)
        ensures
            loaded_as(*self, table_view(table@), r),
    {
        let left = restore_cycle(table, &self.left);
        let right = restore_cycle(table, &self.right);
        let power = restore_cycle(table, &self.power);
        let utility = restore_cycle(table, &self.utility);
        let r = CycleData {
            left,
            right,
            power,
            utility,
            equipsets: restore_sets(&self.equipsets),
            hud_visible: self.hud_visible,
            loaded: true,
        };
        assert(r.left.deep_view() =~= entry_views(r.left@));
        assert(r.right.deep_view() =~= entry_views(r.right@));
        assert(r.power.deep_view() =~= entry_views(r.power@));
        assert(r.utility.deep_view() =~= entry_views(r.utility@));
        r
    }
}

/// The game still knows every spec of a cycle, under the same spec.
pub open spec fn all_known(table: Seq<(Seq<char>, Seq<char>)>, specs: Seq<Seq<char>>) -> bool {
    forall|i: int|
        0 <= i < specs.len() ==> specs[i].len() > 0 && (is_stand_in(#[trigger] specs[i])
            || looked_up(table, specs[i]) == Some(specs[i]))
}

/// Saving a cycle and loading it back gives the same cycle, when the game
/// still knows every item under the same spec and no spec is empty.
pub proof fn lemma_restore_round_trip(table: Seq<(Seq<char>, Seq<char>)>, specs: Seq<Seq<char>>)
    requires
        all_known(table, specs),
    ensures
        restored_cycle(table, specs) == specs,
    decreases specs.len(),
{
    if specs.len() > 0 {
        let u = specs.drop_last();
        assert forall|i: int| 0 <= i < u.len() implies u[i].len() > 0 && (is_stand_in(
            #[trigger] u[i],
        ) || looked_up(table, u[i]) == Some(u[i])) by {
            assert(u[i] == specs[i]);
        }
        lemma_restore_round_trip(table, u);
        let last = specs.last();
        assert(specs[specs.len() - 1] == last);
        assert(u.push(last) =~= specs);
    }
}

/// Restoring the saved cycles gives the same cycles, when the game still
/// knows every item under the same spec and no spec is empty.
pub proof fn lemma_cycles_round_trip(c: CycleData, table: Seq<(Seq<char>, Seq<char>)>)
    requires
        forall|s: CycleSlot| all_known(table, #[trigger] c.slot(s)),
    ensures
        forall|s: CycleSlot| #[trigger] restored_cycle(table, c.slot(s)) == c.slot(s),
{
    assert forall|s: CycleSlot| #[trigger] restored_cycle(table, c.slot(s)) == c.slot(s) by {
        lemma_restore_round_trip(table, c.slot(s));
    }
}

/// Saving cycles and loading them back gives the same cycles, the same
/// equipsets and the same visibility, when the game still knows every saved
/// item under the same spec and no spec is empty.
pub proof fn lemma_save_then_load(
    c: CycleData,
    s: CycleSerialized,
    t: Seq<(Seq<char>, Seq<char>)>,
    d: CycleData,
)
    requires
        saved_as(c, s),
        loaded_as(s, t, d),
        forall|slot: CycleSlot| all_known(t, #[trigger] c.slot(slot)),
    ensures
        forall|slot: CycleSlot| #[trigger] d.slot(slot) == c.slot(slot),
        d.sets() == c.sets(),
        d.hud_visible == c.hud_visible,
{
    lemma_cycles_round_trip(c, t);
    assert forall|slot: CycleSlot| #[trigger] d.slot(slot) == c.slot(slot) by {
        assert(restored_cycle(t, c.slot(slot)) == c.slot(slot));
    }
}

/// Cycles written to bytes that read back as their saved values, and
/// loaded from those values, are the same cycles with the same equipsets
/// and visibility, when the game still knows every saved item under the
/// same spec and no spec is empty.
pub proof fn lemma_bytes_round_trip(
    c: CycleData,
    bytes: Seq<u8>,
    t: Seq<(Seq<char>, Seq<char>)>,
    d: CycleData,
)
    requires
        saved_v2_decoding(bytes) == Some(saved_values(c)),
        loaded_from(saved_values(c), t, d),
        forall|slot: CycleSlot| all_known(t, #[trigger] c.slot(slot)),
    ensures
        forall|slot: CycleSlot| #[trigger] d.slot(slot) == c.slot(slot),
        d.sets() == c.sets(),
        d.hud_visible == c.hud_visible,
{
    lemma_cycles_round_trip(c, t);
    assert forall|slot: CycleSlot| #[trigger] d.slot(slot) == c.slot(slot) by {
        assert(restored_cycle(t, c.slot(slot)) == c.slot(slot));
    }
    let sv = saved_sets_view(c.sets());
    let back = sv.map_values(|e: (u32, Seq<char>, Seq<Seq<char>>, Seq<u8>, Seq<char>)| (e.0, e.1, e.2, e.3));
    assert(back =~= c.sets());
}

/// The form specs saved in bytes of this format, the left, right, power
/// and utility cycles in turn; nothing when bincode refuses the bytes.
pub fn saved_specs(bytes: &[u8]) -> (r: Option<Vec<String>>)
    ensures
        r.deep_view() == match saved_v2_decoding(bytes@) {
            Some(d) => Some(d.0 + d.1 + d.2 + d.3),
            None => None,
        },
{
    match decode_saved_v2(bytes) {
        None => None,
        Some(decoded) => {
            let (left, right, power, utility, _sets, _visible) = decoded;
            Some(join_strings(join_strings(join_strings(left, right), power), utility))
        },
    }
}

/// The four stand-ins (best health, magicka and stamina potion, and bare
/// hands) load as they were saved, whatever the game's lookup table holds;
/// so a saved cycle of stand-ins loads unchanged.
pub proof fn lemma_stand_ins_survive_loading(t: Seq<(Seq<char>, Seq<char>)>, specs: Seq<Seq<char>>)
    ensures
        restored_spec(t, "health_proxy"@) == Some("health_proxy"@),
        restored_spec(t, "magicka_proxy"@) == Some("magicka_proxy"@),
        restored_spec(t, "stamina_proxy"@) == Some("stamina_proxy"@),
        restored_spec(t, "unarmed_proxy"@) == Some("unarmed_proxy"@),
        (forall|i: int|
            0 <= i < specs.len() ==> #[trigger] specs[i] == "health_proxy"@ || specs[i] == "magicka_proxy"@
                || specs[i] == "stamina_proxy"@ || specs[i] == "unarmed_proxy"@) ==> restored_cycle(t, specs)
            == specs,
    decreases specs.len(),
{
    if specs.len() > 0 {
        lemma_stand_ins_survive_loading(t, specs.drop_last());
        if forall|i: int|
            0 <= i < specs.len() ==> #[trigger] specs[i] == "health_proxy"@ || specs[i] == "magicka_proxy"@
                || specs[i] == "stamina_proxy"@ || specs[i] == "unarmed_proxy"@ {
            let d = specs.drop_last();
            assert forall|i: int|
                0 <= i < d.len() implies #[trigger] d[i] == "health_proxy"@ || d[i] == "magicka_proxy"@
                    || d[i] == "stamina_proxy"@ || d[i] == "unarmed_proxy"@ by {
                assert(d[i] == specs[i]);
            }
            assert(specs[specs.len() - 1] == specs.last());
            assert(d.push(specs.last()) =~= specs);
        }
    } else {
        assert(restored_cycle(t, specs) =~= specs);
    }
}

/// A lookup finds the first entry for a spec, and nothing when no entry
/// has it.
proof fn lemma_looked_up_first(t: Seq<(Seq<char>, Seq<char>)>, spec: Seq<char>, i: int)
    ensures
        (forall|j: int| 0 <= j < t.len() ==> #[trigger] t[j].0 != spec) ==> looked_up(t, spec) is None,
        0 <= i < t.len() && t[i].0 == spec && (forall|j: int| 0 <= j < i ==> #[trigger] t[j].0 != spec)
            ==> looked_up(t, spec) == Some(t[i].1),
    decreases t.len(),
{
    if t.len() > 0 {
        lemma_looked_up_first(t.skip(1), spec, i - 1);
        if forall|j: int| 0 <= j < t.len() ==> #[trigger] t[j].0 != spec {
            assert(t[0].0 != spec);
            assert forall|j: int| 0 <= j < t.skip(1).len() implies #[trigger] t.skip(1)[j].0 != spec by {
                assert(t.skip(1)[j] == t[j + 1]);
            }
        }
        if 0 <= i < t.len() && t[i].0 == spec && (forall|j: int| 0 <= j < i ==> #[trigger] t[j].0 != spec) {
            if i > 0 {
                assert(t[0].0 != spec);
                assert(t.skip(1)[i - 1] == t[i]);
                assert forall|j: int| 0 <= j < i - 1 implies #[trigger] t.skip(1)[j].0 != spec by {
                    assert(t.skip(1)[j] == t[j + 1]);
                }
            }
        }
    }
}

/// What loading does with a saved spec that is not a stand-in: an empty
/// spec is dropped; any other spec becomes what the first entry of the
/// game's table for it reports, and is dropped when the table has none.
pub proof fn lemma_loading_looks_up(t: Seq<(Seq<char>, Seq<char>)>, spec: Seq<char>, i: int)
    requires
        spec != "health_proxy"@ && spec != "magicka_proxy"@ && spec != "stamina_proxy"@ && spec
            != "unarmed_proxy"@,
    ensures
        spec.len() == 0 ==> restored_spec(t, spec) is None,
        spec.len() > 0 && (forall|j: int| 0 <= j < t.len() ==> #[trigger] t[j].0 != spec) ==> restored_spec(
            t,
            spec,
        ) is None,
        spec.len() > 0 && 0 <= i < t.len() && t[i].0 == spec && (forall|j: int|
            0 <= j < i ==> #[trigger] t[j].0 != spec) ==> restored_spec(t, spec) == Some(t[i].1),
{
    lemma_looked_up_first(t, spec, i);
}

} // verus!
