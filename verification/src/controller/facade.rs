//! The operations the game side and its scripts call: reading numbers from
//! script text, listing and editing equipment sets, and reading cycles.

use vstd::prelude::*;

use super::cycleentries::{
    decimal, digit_char, has_id, ids_distinct, ids_of, ids_sorted, next_id, id_position,
    u32_to_decimal, without_id, EquipSet, SetView,
};
use super::cycles::{names_of, sorted_by_id, CycleData};
use super::keys::CycleSlot;
use crate::plugin::EquippedData;
use crate::text::chars_of;
use byte_slice_cast::AsSliceOf;

verus! {

/// Whether a character is a decimal digit.
pub open spec fn is_digit(c: char) -> bool {
    '0' <= c && c <= '9'
}

/// The value of a decimal digit character.
pub open spec fn digit_value(c: char) -> int {
    (c as int) - ('0' as int)
}

/// Every character is a decimal digit.
pub open spec fn all_digits(s: Seq<char>) -> bool {
    forall|i: int| 0 <= i < s.len() ==> is_digit(#[trigger] s[i])
}

/// The number that a run of decimal digits writes.
pub open spec fn digits_value(s: Seq<char>) -> int
    decreases s.len(),
{
    if s.len() == 0 {
        0
    } else {
        digits_value(s.drop_last()) * 10 + digit_value(s.last())
    }
}

/// The number a non-empty run of decimal digits writes, when it is at most `limit`.
pub open spec fn digits_within(s: Seq<char>, limit: int) -> Option<int> {
    if s.len() > 0 && all_digits(s) && digits_value(s) <= limit {
        Some(digits_value(s))
    } else {
        None
    }
}

/// The `i32` a text writes, read as `str::parse` reads it: an optional `+`
/// or `-`, then one or more decimal digits, and a value within range.
pub open spec fn parsed_i32(s: Seq<char>) -> Option<i32> {
    if s.len() > 0 && s[0] == '-' {
        match digits_within(s.skip(1), 0x8000_0000) {
            Some(v) => Some((-v) as i32),
            None => None,
        }
    } else {
        let body = if s.len() > 0 && s[0] == '+' {
            s.skip(1)
        } else {
            s
        };
        match digits_within(body, 0x7fff_ffff) {
            Some(v) => Some(v as i32),
            None => None,
        }
    }
}

/// The `u16` a text writes, read as `str::parse` reads it: an optional `+`,
/// then one or more decimal digits, and a value within range.
pub open spec fn parsed_u16(s: Seq<char>) -> Option<u16> {
    let body = if s.len() > 0 && s[0] == '+' {
        s.skip(1)
    } else {
        s
    };
    match digits_within(body, 0xffff) {
        Some(v) => Some(v as u16),
        None => None,
    }
}

/// A longer run of digits never writes a smaller number.
proof fn lemma_digits_prefix_le(s: Seq<char>, k: int)
    requires
        all_digits(s),
        0 <= k <= s.len(),
    ensures
        0 <= digits_value(s.take(k)) <= digits_value(s),
    decreases s.len(),
{
    if s.len() > 0 {
        let u = s.drop_last();
        assert(all_digits(u)) by {
            assert forall|i: int| 0 <= i < u.len() implies is_digit(#[trigger] u[i]) by {
                assert(u[i] == s[i]);
            }
        }
        assert(is_digit(s[s.len() - 1]));
        if k == s.len() {
            assert(s.take(k) =~= s);
            lemma_digits_prefix_le(u, u.len() as int);
            assert(u.take(u.len() as int) =~= u);
        } else {
            lemma_digits_prefix_le(u, k);
            assert(u.take(k) =~= s.take(k));
            lemma_digits_prefix_le(u, u.len() as int);
            assert(u.take(u.len() as int) =~= u);
        }
    }
}

/// A number accepted by `digits_within` is within its bounds.
pub(crate) proof fn lemma_digits_within_range(s: Seq<char>, limit: int)
    ensures
        digits_within(s, limit) matches Some(v) ==> 0 <= v <= limit,
{
    if digits_within(s, limit) is Some {
        lemma_digits_prefix_le(s, s.len() as int);
        assert(s.take(s.len() as int) =~= s);
    }
}

/// The number written by the digits of `chars` from position `from` on,
/// when they are all digits, there is at least one, and it is at most `limit`.
pub(crate) fn digits_up_to(chars: &Vec<char>, from: usize, limit: u64) -> (r: Option<u64>)
    requires
        from <= chars@.len(),
        limit < 0x1_0000_0000,
    ensures
        r == match digits_within(chars@.skip(from as int), limit as int) {
            Some(v) => Some(v as u64),
            None => None,
        },
{
    let ghost body = chars@.skip(from as int);
    if from == chars.len() {
        return None;
    }
    let mut acc: u64 = 0;
    let mut i: usize = from;
    while i < chars.len()
        invariant
            from <= i <= chars@.len(),
            body == chars@.skip(from as int),
            limit < 0x1_0000_0000,
            all_digits(body.take(i - from)),
            acc == digits_value(body.take(i - from)),
            acc <= limit,
        decreases chars.len() - i,
    {
        let c = chars[i];
        assert(body[i - from] == c);
        if !('0' <= c && c <= '9') {
            assert(!all_digits(body));
            return None;
        }
        let d = (c as u32) - ('0' as u32);
        let ghost t = body.take(i - from + 1);
        assert(t.drop_last() =~= body.take(i - from));
        assert(all_digits(t)) by {
            assert forall|j: int| 0 <= j < t.len() implies is_digit(#[trigger] t[j]) by {
                if j < t.len() - 1 {
                    assert(t[j] == body.take(i - from)[j]);
                }
            }
        }
        acc = acc * 10 + d as u64;
        i += 1;
        if acc > limit {
            proof {
                if all_digits(body) {
                    lemma_digits_prefix_le(body, i - from);
                }
            }
            return None;
        }
    }
    assert(body.take(i - from) =~= body);
    Some(acc)
}

/// Read an `i32` as `str::parse` does.
pub fn parse_i32(text: &str) -> (r: Option<i32>)
    ensures
        r == parsed_i32(text@),
{
    let chars = chars_of(text);
    proof {
        lemma_digits_within_range(chars@.skip(1), 0x8000_0000);
        lemma_digits_within_range(chars@.skip(1), 0x7fff_ffff);
        lemma_digits_within_range(chars@, 0x7fff_ffff);
    }
    if chars.len() > 0 && chars[0] == '-' {
        match digits_up_to(&chars, 1, 0x8000_0000) {
            Some(v) => {
                let neg: i64 = 0i64 - (v as i64);
                Some(neg as i32)
            },
            None => None,
        }
    } else {
        let from: usize = if chars.len() > 0 && chars[0] == '+' {
            1
        } else {
            0
        };
        proof {
            if !(chars@.len() > 0 && chars@[0] == '+') {
                assert(chars@.skip(0) =~= chars@);
            }
        }
        match digits_up_to(&chars, from, 0x7fff_ffff) {
            Some(v) => Some(v as i32),
            None => None,
        }
    }
}

/// Read an `i32` as `str::parse` does, or -1 when the text writes none.
/// Scripts use the result as an array index, so -1 signals failure.
pub fn string_to_int(number: String) -> (r: i32)
    ensures
        r == match parsed_i32(number@) {
            Some(v) => v,
            None => -1i32,
        },
{
    match parse_i32(number.as_str()) {
        Some(v) => v,
        None => -1,
    }
}

/// Read a `u16` as `str::parse` does.
fn parse_u16(text: &str) -> (r: Option<u16>)
    ensures
        r == parsed_u16(text@),
{
    let chars = chars_of(text);
    proof {
        lemma_digits_within_range(chars@.skip(1), 0xffff);
        lemma_digits_within_range(chars@, 0xffff);
    }
    let from: usize = if chars.len() > 0 && chars[0] == '+' {
        1
    } else {
        0
    };
    proof {
        if !(chars@.len() > 0 && chars@[0] == '+') {
            assert(chars@.skip(0) =~= chars@);
        }
    }
    match digits_up_to(&chars, from, 0xffff) {
        Some(v) => Some(v as u16),
        None => None,
    }
}

/// The id of the equipset at the given position, counting in id order, for
/// scripts that index equipsets by position; -1 when the text is no `u16`
/// or names no position. An id is handed over as an `i32`, wrapping as `as` does.
pub fn equipset_index_to_id(cycles: &CycleData, idx: String) -> (r: i32)
    ensures
        ({
            let ids = ids_of(sorted_by_id(cycles.sets()));
            r == match parsed_u16(idx@) {
                Some(p) => if p < ids.len() {
                    ids[p as int] as i32
                } else {
                    -1i32
                },
                None => -1i32,
            }
        }),
{
    let parsed = match parse_u16(idx.as_str()) {
        Some(p) => p,
        None => {
            return -1;
        },
    };
    let ids = cycles.equipset_ids();
    if parsed as usize >= ids.len() {
        return -1;
    }
    ids[parsed as usize] as i32
}

/// The names of the equipsets, ordered by id.
pub fn get_equipset_names(cycles: &CycleData) -> (r: Vec<String>)
    ensures
        r.deep_view() == names_of(sorted_by_id(cycles.sets())),
{
    cycles.equipset_names()
}

/// The ids of the equipsets in ascending order, written in decimal.
pub fn get_equipset_ids(cycles: &CycleData) -> (r: Vec<String>)
    ensures
        r.deep_view() == ids_of(sorted_by_id(cycles.sets())).map_values(|id: u32| decimal(id as nat)),
{
    let ids = cycles.equipset_ids();
    let mut out: Vec<String> = Vec::new();
    let mut i: usize = 0;
    while i < ids.len()
        invariant
            i <= ids@.len(),
            ids@ == ids_of(sorted_by_id(cycles.sets())),
            out.deep_view() =~= ids@.map_values(|id: u32| decimal(id as nat)).take(i as int),
        decreases ids.len() - i,
    {
        let ghost before = out.deep_view();
        let s = u32_to_decimal(ids[i]);
        out.push(s);
        assert(out.deep_view() =~= before.push(s@));
        i += 1;
    }
    out
}

/// Clear all cycles, including the equipsets.
pub fn clear_cycles(cycles: &mut CycleData)
    ensures
        forall|s: CycleSlot| #[trigger] final(cycles).slot(s) == Seq::<Seq<char>>::empty(),
        final(cycles).sets() == Seq::<SetView>::empty(),
        final(cycles).hud_visible == old(cycles).hud_visible,
        final(cycles).loaded == old(cycles).loaded,
{
    cycles.clear();
}

/// The cycle a script names by number: 0 powers, 1 utility, 2 left, 3 right.
pub open spec fn script_slot(which: i32) -> Option<CycleSlot> {
    if which == 0 {
        Some(CycleSlot::Power)
    } else if which == 1 {
        Some(CycleSlot::Utility)
    } else if which == 2 {
        Some(CycleSlot::Left)
    } else if which == 3 {
        Some(CycleSlot::Right)
    } else {
        None
    }
}

/// The form specs of the cycle a script names by number; nothing for other numbers.
pub fn get_cycle_formids(cycles: &CycleData, which: i32) -> (r: Vec<String>)
    ensures
        r.deep_view() == match script_slot(which) {
            Some(s) => cycles.slot(s),
            None => Seq::<Seq<char>>::empty(),
        },
{
    if which == 0 {
        cycles.formids(&CycleSlot::Power)
    } else if which == 1 {
        cycles.formids(&CycleSlot::Utility)
    } else if which == 2 {
        cycles.formids(&CycleSlot::Left)
    } else if which == 3 {
        cycles.formids(&CycleSlot::Right)
    } else {
        let r: Vec<String> = Vec::new();
        assert(r.deep_view() =~= Seq::<Seq<char>>::empty());
        r
    }
}

/// The names of the entries the game knows, in cycle order; `t` pairs
/// form specs with names.
pub open spec fn known_names(t: Seq<(Seq<char>, Seq<char>)>, specs: Seq<Seq<char>>) -> Seq<Seq<char>>
    decreases specs.len(),
{
    if specs.len() == 0 {
        Seq::empty()
    } else {
        let rest = known_names(t, specs.drop_last());
        match super::cosave_v2::looked_up(t, specs.last()) {
            Some(n) => rest.push(n),
            None => rest,
        }
    }
}

/// The names of the items in a list of form specs that `known` (form spec,
/// name) has a name for.
fn names_of_known(specs: &Vec<String>, known: &Vec<(String, String)>) -> (r: Vec<String>)
    ensures
        r.deep_view() == known_names(super::cosave_v2::table_view(known@), specs.deep_view()),
{
    let ghost t = super::cosave_v2::table_view(known@);
    let ghost ss = specs.deep_view();
    let mut out: Vec<String> = Vec::new();
    let mut i: usize = 0;
    while i < specs.len()
        invariant
            i <= specs@.len(),
            t == super::cosave_v2::table_view(known@),
            ss == specs.deep_view(),
            out.deep_view() == known_names(t, ss.take(i as int)),
        decreases specs.len() - i,
    {
        assert(ss.take(i + 1).drop_last() =~= ss.take(i as int));
        assert(ss.take(i + 1).last() == specs@[i as int]@);
        let ghost before = out.deep_view();
        match super::cosave_v2::look_up(known, &specs[i]) {
            Some(name) => {
                let ghost n = name@;
                out.push(name);
                assert(out.deep_view() =~= before.push(n));
            },
            None => {},
        }
        i += 1;
    }
    assert(ss.take(specs.len() as int) =~= ss);
    out
}

/// The names of the items in the cycle a script names by number, for the
/// items `known` (form spec, name) has a name for; nothing for other numbers.
pub fn get_cycle_names(cycles: &CycleData, which: i32, known: &Vec<(String, String)>) -> (r: Vec<String>)
    ensures
        r.deep_view() == match script_slot(which) {
            Some(s) => known_names(super::cosave_v2::table_view(known@), cycles.slot(s)),
            None => Seq::<Seq<char>>::empty(),
        },
{
    let specs = get_cycle_formids(cycles, which);
    names_of_known(&specs, known)
}

/// The name `t` gives an item, or the empty name.
pub open spec fn item_name(t: Seq<(Seq<char>, Seq<char>)>, f: Seq<char>) -> Seq<char> {
    match super::cosave_v2::looked_up(t, f) {
        Some(n) => n,
        None => Seq::empty(),
    }
}

/// The names of the items of the equipset with the given id, by `known`
/// (form spec, name); an item without a name has the empty name, and an
/// unknown id gives nothing.
pub fn get_equipset_item_names(cycles: &CycleData, id: u32, known: &Vec<(String, String)>) -> (r: Vec<String>)
    ensures
        !super::cycleentries::ids_of(cycles.sets()).contains(id) ==> r@.len() == 0,
        super::cycleentries::ids_of(cycles.sets()).contains(id) ==> exists|i: int|
            0 <= i < cycles.sets().len() && cycles.sets()[i].0 == id && (forall|j: int|
                0 <= j < i ==> #[trigger] cycles.sets()[j].0 != id) && r.deep_view() == cycles.sets()[i].2.map_values(
                |f: Seq<char>| item_name(super::cosave_v2::table_view(known@), f),
            ),
{
    let ghost t = super::cosave_v2::table_view(known@);
    let mut out: Vec<String> = Vec::new();
    match cycles.equipset_by_id(id) {
        Some(set) => {
            let items = set.item_specs();
            let mut i: usize = 0;
            while i < items.len()
                invariant
                    i <= items@.len(),
                    t == super::cosave_v2::table_view(known@),
                    items.deep_view() == set@.2,
                    out.deep_view() =~= items.deep_view().take(i as int).map_values(
                        |f: Seq<char>| item_name(t, f),
                    ),
                decreases items.len() - i,
            {
                let ghost before = out.deep_view();
                let name = match super::cosave_v2::look_up(known, &items[i]) {
                    Some(n) => n,
                    None => {
                        let e = String::new();
                        assert(e@ =~= Seq::<char>::empty());
                        e
                    },
                };
                let ghost n = name@;
                out.push(name);
                assert(items.deep_view().take(i + 1) =~= items.deep_view().take(i as int).push(items@[i as int]@));
                assert(out.deep_view() =~= before.push(n));
                i += 1;
            }
            assert(items.deep_view().take(items.len() as int) =~= items.deep_view());
            out
        },
        None => out,
    }
}

/// The version of the saved data format this library writes.
pub fn serialize_version() -> (r: u32)
    ensures
        r == 2,
{
    CycleData::serialize_version()
}

/// The bytes the cycles are saved as, in the current format.
pub fn serialize_cycles(cycles: &CycleData) -> (r: Vec<u8>)
    ensures
        r@ == super::cosave_v2::cycles_bytes(*cycles),
{
    cycles.serialize()
}

/// Make an equipset from what the player has equipped now, named `name`.
pub fn handle_create_equipset(cycles: &mut CycleData, name: String, data: EquippedData) -> (r: bool)
    requires
        old(cycles).sets().len() < u32::MAX,
    ensures
        ({
            let before = old(cycles).sets();
            let e: SetView = (next_id(before) as u32, name@, data.items.deep_view(), data.empty_slots@);
            &&& r == !before.contains(e)
            &&& r ==> final(cycles).sets() == before.push(e)
            &&& !r ==> final(cycles).sets() == before
            &&& ids_distinct(before) ==> r && ids_distinct(final(cycles).sets())
        }),
        final(cycles).same_cycles(*old(cycles)),
{
    cycles.add_equipset(name, data)
}

/// Replace the items and empty armor slots of the equipset with the given
/// id by what the player has equipped now.
pub fn handle_update_equipset(cycles: &mut CycleData, id: u32, data: EquippedData) -> (r: bool)
    ensures
        match id_position(old(cycles).sets(), id) {
            Some(i) => r && final(cycles).sets() == old(cycles).sets().update(
                i,
                (old(cycles).sets()[i].0, old(cycles).sets()[i].1, data.items.deep_view(), data.empty_slots@),
            ),
            None => !r && final(cycles).sets() == old(cycles).sets(),
        },
        r == ids_of(old(cycles).sets()).contains(id),
        final(cycles).same_cycles(*old(cycles)),
{
    cycles.update_equipset(id, data)
}

/// Rename the equipset with the given id.
pub fn handle_rename_equipset(cycles: &mut CycleData, id: u32, name: String) -> (r: bool)
    ensures
        match id_position(old(cycles).sets(), id) {
            Some(i) => r && final(cycles).sets() == old(cycles).sets().update(
                i,
                (old(cycles).sets()[i].0, name@, old(cycles).sets()[i].2, old(cycles).sets()[i].3),
            ),
            None => !r && final(cycles).sets() == old(cycles).sets(),
        },
        r == ids_of(old(cycles).sets()).contains(id),
        final(cycles).same_cycles(*old(cycles)),
{
    cycles.rename_equipset(id, name)
}

/// Remove the equipsets with the given id.
pub fn handle_remove_equipset(cycles: &mut CycleData, id: u32) -> (r: bool)
    ensures
        final(cycles).sets() == without_id::<EquipSet>(old(cycles).sets(), decimal(id as nat)),
        r == has_id::<EquipSet>(old(cycles).sets(), decimal(id as nat)),
        final(cycles).same_cycles(*old(cycles)),
{
    cycles.remove_equipset(u32_to_decimal(id))
}

/// What the player has equipped, boxed for the game side.
pub fn equipped_data(items: Vec<String>, empty_slots: Vec<u8>) -> (r: Box<EquippedData>)
    ensures
        r.items == items,
        r.empty_slots == empty_slots,
{
    Box::new(EquippedData { items, empty_slots })
}

/// The id of the first equipset with the given name, or 0 when there is
/// none; names need not be unique.
pub fn look_up_equipset_by_name(cycles: &mut CycleData, name: String) -> (r: u32)
    ensures
        *final(cycles) == *old(cycles),
        (exists|i: int| 0 <= i < old(cycles).sets().len() && old(cycles).sets()[i].1 == name@)
            ==> exists|i: int|
            0 <= i < old(cycles).sets().len() && old(cycles).sets()[i].1 == name@ && r == old(
                cycles,
            ).sets()[i].0 && forall|j: int|
                0 <= j < i ==> #[trigger] old(cycles).sets()[j].1 != name@,
        !(exists|i: int| 0 <= i < old(cycles).sets().len() && old(cycles).sets()[i].1 == name@)
            ==> r == 0,
{
    cycles.equipset_by_name(name)
}

/// Whether the HUD is visible.
pub fn show_ui(cycles: &mut CycleData) -> (r: bool)
    ensures
        r == old(cycles).hud_visible,
        *final(cycles) == *old(cycles),
{
    cycles.hud_visible()
}

/// Digit characters have the values of their digits.
proof fn lemma_digit_char_value(d: nat)
    requires
        d < 10,
    ensures
        is_digit(digit_char(d)),
        digit_value(digit_char(d)) == d,
{
}

/// A number written in decimal is all digits and reads back as itself.
pub proof fn lemma_decimal_reads_back(n: nat)
    ensures
        decimal(n).len() > 0,
        all_digits(decimal(n)),
        digits_value(decimal(n)) == n,
        is_digit(decimal(n)[0]),
    decreases n,
{
    if n < 10 {
        lemma_digit_char_value(n);
        assert(decimal(n).drop_last() =~= Seq::<char>::empty());
        assert(digits_value(Seq::<char>::empty()) == 0);
        assert(digits_value(decimal(n)) == digits_value(decimal(n).drop_last()) * 10 + digit_value(
            decimal(n).last(),
        ));
    } else {
        lemma_decimal_reads_back(n / 10);
        lemma_digit_char_value(n % 10);
        assert((n / 10) * 10 + n % 10 == n) by (nonlinear_arith);
        let s = decimal(n);
        assert(s.drop_last() =~= decimal(n / 10));
        assert(s.last() == digit_char(n % 10));
        assert(digits_value(s) == digits_value(decimal(n / 10)) * 10 + digit_value(s.last()));
        assert forall|i: int| 0 <= i < s.len() implies is_digit(#[trigger] s[i]) by {
            if i < s.len() - 1 {
                assert(s[i] == decimal(n / 10)[i]);
            }
        }
        assert(s[0] == decimal(n / 10)[0]);
    }
}

/// An id written out in decimal, as `get_equipset_ids` writes ids, reads
/// back through `string_to_int` as the same number when it fits in an `i32`.
pub proof fn lemma_written_id_reads_back(id: u32)
    requires
        id <= 0x7fff_ffff,
    ensures
        parsed_i32(decimal(id as nat)) == Some(id as i32),
{
    lemma_decimal_reads_back(id as nat);
    let s = decimal(id as nat);
    assert(s[0] != '-' && s[0] != '+');
}


/// The slice-cast error of the `byte_slice_cast` crate.
#[verifier::external_type_specification]
#[verifier::external_body]
pub struct ExSliceCastError(byte_slice_cast::Error);

/// The error of the `ucs2` crate.
#[verifier::external_type_specification]
#[verifier::external_body]
pub struct ExUcs2Error(ucs2::Error);

/// Why wide text could not be turned into a string.
#[derive(Clone, Copy, Debug, PartialEq, Eq, Hash, Structural)]
pub enum WideTextError {
    /// The bytes could not be read as 16-bit units: an odd number of them,
    /// or storage not aligned for 16-bit units.
    NotWideText,
    /// The decoded text does not fit in twice as many bytes as there are units.
    TooLong,
    /// The decoded bytes are not valid UTF-8.
    NotUtf8,
}

/// The 16-bit units of `bytes` taken two by two, the first byte of each
/// pair the low one.
pub open spec fn units_low_first(b: Seq<u8>) -> Seq<u16> {
    Seq::new(b.len() / 2, |i: int| (b[2 * i] + 256 * b[2 * i + 1]) as u16)
}

/// The 16-bit units of `bytes` taken two by two, the first byte of each
/// pair the high one.
pub open spec fn units_high_first(b: Seq<u8>) -> Seq<u16> {
    Seq::new(b.len() / 2, |i: int| (256 * b[2 * i] + b[2 * i + 1]) as u16)
}

/// `w` is what `bytes` hold as 16-bit units in one of the two byte orders.
pub open spec fn units_in_some_order(w: Seq<u16>, bytes: Seq<u8>) -> bool {
    w == units_low_first(bytes) || w == units_high_first(bytes)
}

/// Calls `byte_slice_cast::AsSliceOf::as_slice_of::<u16>` and copies the
/// units out. As its source shows, no bytes give no units before any other
/// check, an odd number of bytes is refused, and the units it gives are
/// the bytes taken two by two, bitwise, in the machine's byte order (its
/// documentation shows both orders). Whether storage is aligned, and which
/// of the two orders the machine has, are left unsaid.
#[verifier::external_body]
fn wide_units(bytes: &Vec<u8>) -> (r: Result<Vec<u16>, byte_slice_cast::Error>)
    ensures
        r matches Ok(w) ==> w@.len() * 2 == bytes@.len() && units_in_some_order(w@, bytes@),
        bytes@.len() % 2 == 1 ==> r is Err,
        bytes@.len() == 0 ==> r is Ok,
{
    match bytes.as_slice_of::<u16>() {
        Ok(w) => Ok(w.to_vec()),
        Err(e) => Err(e),
    }
}

/// The UTF-8 bytes `ucs2` writes for one UCS-2 unit: one byte below 0x80,
/// two below 0x800, three otherwise.
pub open spec fn ucs2_unit_bytes(c: u16) -> Seq<u8> {
    if c < 0x80 {
        seq![c as u8]
    } else if c < 0x800 {
        seq![(0xC0 + ((c >> 6u16) & 0x1F)) as u8, (0x80 + (c & 0x3F)) as u8]
    } else {
        seq![
            (0xE0 + ((c >> 12u16) & 0x0F)) as u8,
            (0x80 + ((c >> 6u16) & 0x3F)) as u8,
            (0x80 + (c & 0x3F)) as u8,
        ]
    }
}

/// The UTF-8 bytes `ucs2` writes for a run of UCS-2 units.
pub open spec fn ucs2_bytes(units: Seq<u16>) -> Seq<u8>
    decreases units.len(),
{
    if units.len() == 0 {
        Seq::empty()
    } else {
        ucs2_bytes(units.drop_last()) + ucs2_unit_bytes(units.last())
    }
}

/// Calls `ucs2::decode`. As its source shows, it writes the UTF-8 bytes of
/// the units at the start of the buffer and returns how many it wrote,
/// leaving the rest of the buffer as it was, and it fails when they do not
/// fit. What the buffer holds after a failure is left unsaid.
#[verifier::external_body]
fn ucs2_decode(input: &[u16], output: &mut Vec<u8>) -> (r: Result<usize, ucs2::Error>)
    ensures
        final(output)@.len() == old(output)@.len(),
        ucs2_bytes(input@).len() <= old(output)@.len() ==> (r matches Ok(n) && n == ucs2_bytes(
            input@,
        ).len()),
        ucs2_bytes(input@).len() <= old(output)@.len() ==> final(output)@ == ucs2_bytes(input@)
            + old(output)@.skip(ucs2_bytes(input@).len() as int),
        ucs2_bytes(input@).len() > old(output)@.len() ==> r is Err,
{
    ucs2::decode(input, output.as_mut_slice())
}

/// Calls `String::from_utf8`, which the standard library documents as
/// accepting exactly the valid UTF-8 byte sequences, decoded.
#[verifier::external_body]
fn string_from_utf8(bytes: Vec<u8>) -> (r: Option<String>)
    ensures
        r is Some <==> vstd::utf8::valid_utf8(bytes@),
        r matches Some(s) ==> s@ == vstd::utf8::decode_utf8(bytes@),
{
    match String::from_utf8(bytes) {
        Ok(s) => Some(s),
        Err(_) => None,
    }
}

/// What `ucs2_to_utf8` gives for the units: their UTF-8 bytes in a
/// zero-filled buffer of two bytes per unit, read as UTF-8.
pub open spec fn ucs2_text(units: Seq<u16>) -> Result<Seq<char>, WideTextError> {
    let bytes = ucs2_bytes(units);
    if bytes.len() > units.len() * 2 {
        Err(WideTextError::TooLong)
    } else {
        let padded = bytes + Seq::new((units.len() * 2 - bytes.len()) as nat, |i: int| 0u8);
        if vstd::utf8::valid_utf8(padded) {
            Ok(vstd::utf8::decode_utf8(padded))
        } else {
            Err(WideTextError::NotUtf8)
        }
    }
}

/// A view of a text result.
pub open spec fn text_result(r: Result<String, WideTextError>) -> Result<Seq<char>, WideTextError> {
    match r {
        Ok(s) => Ok(s@),
        Err(e) => Err(e),
    }
}

/// Decode a wide string from the game into UTF-8. The text is decoded into
/// a zero-filled buffer of two bytes per unit, and the whole buffer is read
/// as UTF-8, trailing zeros included.
pub fn ucs2_to_utf8(input: Vec<u16>) -> (r: Result<String, WideTextError>)
    requires
        input@.len() * 2 <= usize::MAX,
    ensures
        text_result(r) == ucs2_text(input@),
{
    let n = input.len() * 2;
    let mut buffer: Vec<u8> = Vec::new();
    let mut i: usize = 0;
    while i < n
        invariant
            i <= n,
            buffer@ =~= Seq::new(i as nat, |k: int| 0u8),
        decreases n - i,
    {
        buffer.push(0u8);
        i += 1;
    }
    let ghost zeros = buffer@;
    match ucs2_decode(input.as_slice(), &mut buffer) {
        Ok(_) => {
            let ghost bytes = ucs2_bytes(input@);
            assert(zeros.skip(bytes.len() as int) =~= Seq::new(
                (input@.len() * 2 - bytes.len()) as nat,
                |k: int| 0u8,
            ));
            match string_from_utf8(buffer) {
                Some(s) => Ok(s),
                None => Err(WideTextError::NotUtf8),
            }
        },
        Err(_) => Err(WideTextError::TooLong),
    }
}

/// Decode wide-character bytes from the game into UTF-8. Bytes that cannot
/// be read as 16-bit units, an odd number of them in particular, are
/// refused; the units are then decoded as `ucs2_to_utf8` decodes them.
pub fn u8_widebytes_to_utf8(input: Vec<u8>) -> (r: Result<String, WideTextError>)
    ensures
        input@.len() % 2 == 1 ==> (r matches Err(e) && e == WideTextError::NotWideText),
        input@.len() == 0 ==> (r matches Ok(t) && t@.len() == 0),
        input@.len() % 2 == 0 ==> (r matches Err(e) && e == WideTextError::NotWideText)
            || text_result(r) == ucs2_text(units_low_first(input@))
            || text_result(r) == ucs2_text(units_high_first(input@)),
{
    let len = input.len();
    match wide_units(&input) {
        Ok(w) => {
            assert(w@.len() * 2 == len);
            proof {
                if w@.len() == 0 {
                    lemma_no_units_no_text();
                    assert(w@ =~= Seq::<u16>::empty());
                }
            }
            let r = ucs2_to_utf8(w);
            r
        },
        Err(_) => Err(WideTextError::NotWideText),
    }
}

/// No units decode to no text.
proof fn lemma_no_units_no_text()
    ensures
        ucs2_text(Seq::<u16>::empty()) == Ok::<Seq<char>, WideTextError>(Seq::<char>::empty()),
{
    let units = Seq::<u16>::empty();
    assert(ucs2_bytes(units) =~= Seq::<u8>::empty());
    let padded = ucs2_bytes(units) + Seq::new((units.len() * 2 - ucs2_bytes(units).len()) as nat, |i: int| 0u8);
    assert(padded =~= Seq::<u8>::empty());
    assert(vstd::utf8::valid_utf8(padded));
    assert(vstd::utf8::decode_utf8(padded) =~= Seq::<char>::empty());
}

/// A copy of some bytes.
fn copy_bytes(b: &Vec<u8>) -> (r: Vec<u8>)
    ensures
        r@ == b@,
{
    let mut out: Vec<u8> = Vec::new();
    let mut i: usize = 0;
    while i < b.len()
        invariant
            i <= b@.len(),
            out@ =~= b@.take(i as int),
        decreases b.len() - i,
    {
        out.push(b[i]);
        i += 1;
    }
    assert(b@.take(b@.len() as int) =~= b@);
    out
}

/// The bytes of a C string without its terminating NUL, when the bytes are
/// one: a NUL at the end and none before it; otherwise no bytes.
pub open spec fn c_string_content(b: Seq<u8>) -> Seq<u8> {
    if b.len() > 0 && b.last() == 0 && (forall|i: int| 0 <= i < b.len() - 1 ==> b[i] != 0) {
        b.drop_last()
    } else {
        Seq::empty()
    }
}

/// The text of a C string: its bytes read as UTF-8, leniently when they are not valid.
pub open spec fn c_string_text(b: Seq<u8>) -> Seq<char> {
    let c = c_string_content(b);
    if vstd::utf8::valid_utf8(c) {
        vstd::utf8::decode_utf8(c)
    } else {
        super::strings::lossy_utf8(c)
    }
}

/// The bytes of a C string without its terminating NUL.
fn c_string_bytes(b: &Vec<u8>) -> (r: Vec<u8>)
    ensures
        r@ == c_string_content(b@),
{
    let len = b.len();
    if len == 0 || b[len - 1] != 0 {
        let r: Vec<u8> = Vec::new();
        assert(r@ =~= c_string_content(b@));
        return r;
    }
    let mut out: Vec<u8> = Vec::new();
    let mut i: usize = 0;
    while i < len - 1
        invariant
            len == b@.len(),
            len > 0,
            i <= len - 1,
            out@ =~= b@.take(i as int),
            forall|j: int| 0 <= j < i ==> b@[j] != 0,
        decreases len - 1 - i,
    {
        if b[i] == 0 {
            let r: Vec<u8> = Vec::new();
            assert(!(forall|j: int| 0 <= j < b@.len() - 1 ==> b@[j] != 0));
            assert(r@ =~= c_string_content(b@));
            return r;
        }
        out.push(b[i]);
        i += 1;
    }
    assert(out@ =~= b@.drop_last());
    out
}

/// The text wide units give: their decoding, or, when that fails, the
/// lenient C-string reading of the bytes they came from.
pub open spec fn units_text(units: Seq<u16>, bytes: Seq<u8>) -> Seq<char> {
    match ucs2_text(units) {
        Ok(t) => t,
        Err(_) => c_string_text(bytes),
    }
}

/// The text of wide units read from `bytes`: their decoding when it
/// succeeds, else the lenient C-string reading of the bytes.
pub fn text_from_units(units: Vec<u16>, bytes: &Vec<u8>) -> (r: String)
    requires
        units@.len() * 2 <= usize::MAX,
    ensures
        r@ == units_text(units@, bytes@),
{
    match ucs2_to_utf8(units) {
        Ok(v) => v,
        Err(_) => {
            let c = c_string_bytes(bytes);
            let lenient = copy_bytes(&c);
            match string_from_utf8(c) {
                Some(s) => s,
                None => super::strings::utf8_lossy(lenient.as_slice()),
            }
        },
    }
}

/// Make text of name bytes from the game by hook or by crook: valid UTF-8
/// is taken as it is; other bytes are read as wide characters, and failing
/// that as a C string, leniently (see `text_from_units`). Bytes that cannot
/// be read as 16-bit units give no text.
pub fn convert_to_string_doggedly(bytes: Vec<u8>) -> (r: String)
    ensures
        vstd::utf8::valid_utf8(bytes@) ==> r@ == vstd::utf8::decode_utf8(bytes@),
        !vstd::utf8::valid_utf8(bytes@) && bytes@.len() % 2 == 1 ==> r@ == Seq::<char>::empty(),
        !vstd::utf8::valid_utf8(bytes@) && bytes@.len() % 2 == 0 ==> r@ == Seq::<char>::empty()
            || r@ == units_text(units_low_first(bytes@), bytes@)
            || r@ == units_text(units_high_first(bytes@), bytes@),
{
    let copy = copy_bytes(&bytes);
    match string_from_utf8(copy) {
        Some(s) => {
            return s;
        },
        None => {},
    }
    let len = bytes.len();
    let units = match wide_units(&bytes) {
        Ok(w) => w,
        Err(_) => {
            let r = String::new();
            assert(r@ =~= Seq::<char>::empty());
            return r;
        },
    };
    assert(units@.len() * 2 == len);
    let ghost w = units@;
    let r = text_from_units(units, &bytes);
    assert(r@ == units_text(w, bytes@));
    r
}

} // verus!

