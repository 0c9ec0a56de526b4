//! Cycles of entries (item form specs, equipment sets) and the operations the
//! HUD performs on them: rotating, peeking, adding and removing.

use vstd::prelude::*;

verus! {

/// The decimal digit character for a number below ten.
pub open spec fn digit_char(d: nat) -> char {
    if d == 0 {
        '0'
    } else if d == 1 {
        '1'
    } else if d == 2 {
        '2'
    } else if d == 3 {
        '3'
    } else if d == 4 {
        '4'
    } else if d == 5 {
        '5'
    } else if d == 6 {
        '6'
    } else if d == 7 {
        '7'
    } else if d == 8 {
        '8'
    } else {
        '9'
    }
}

/// The decimal representation of a natural number, without leading zeros.
pub open spec fn decimal(n: nat) -> Seq<char>
    decreases n,
{
    if n < 10 {
        seq![digit_char(n)]
    } else {
        decimal(n / 10).push(digit_char(n % 10))
    }
}

fn digit_text(d: u32) -> (r: &'static str)
    requires
        d < 10,
    ensures
        r@ == seq![digit_char(d as nat)],
{
    proof {
        reveal_strlit("0");
        reveal_strlit("1");
        reveal_strlit("2");
        reveal_strlit("3");
        reveal_strlit("4");
        reveal_strlit("5");
        reveal_strlit("6");
        reveal_strlit("7");
        reveal_strlit("8");
        reveal_strlit("9");
    }
    if d == 0 {
        "0"
    } else if d == 1 {
        "1"
    } else if d == 2 {
        "2"
    } else if d == 3 {
        "3"
    } else if d == 4 {
        "4"
    } else if d == 5 {
        "5"
    } else if d == 6 {
        "6"
    } else if d == 7 {
        "7"
    } else if d == 8 {
        "8"
    } else {
        "9"
    }
}

/// Format a number in decimal, as `to_string` does for integers.
pub fn u32_to_decimal(n: u32) -> (r: String)
    ensures
        r@ == decimal(n as nat),
    decreases n,
{
    if n < 10 {
        String::from_str(digit_text(n))
    } else {
        let mut s = u32_to_decimal(n / 10);
        s.append(digit_text(n % 10));
        s
    }
}

/// A single equipment set.
#[derive(Debug, Clone, Hash, PartialEq, Eq)]
pub struct EquipSet {
    /// A unique id for this equipset.
    id: u32,
    /// A human-set name for this equipset.
    name: String,
    /// A list of formspecs for items to be equipped when this equipset is selected.
    pub items: Vec<String>,
    /// The armor slots, by their shift, that this equipset leaves empty.
    pub empty_slots: Vec<u8>,
}

/// The value of an equipset: its id, its name, its items and the armor
/// slots it leaves empty.
pub type SetView = (u32, Seq<char>, Seq<Seq<char>>, Seq<u8>);

impl View for EquipSet {
    type V = SetView;

    closed spec fn view(&self) -> SetView {
        (self.id, self.name@, self.items.deep_view(), self.empty_slots@)
    }
}

/// Copy a list of armor slots.
pub fn copy_slots(v: &Vec<u8>) -> (r: Vec<u8>)
    ensures
        r@ == v@,
{
    let mut out: Vec<u8> = Vec::new();
    let mut i: usize = 0;
    while i < v.len()
        invariant
            i <= v.len(),
            out@ =~= v@.take(i as int),
        decreases v.len() - i,
    {
        out.push(v[i]);
        i += 1;
    }
    assert(v@.take(v.len() as int) =~= v@);
    out
}

/// Whether two lists of armor slots are equal.
fn slots_equal(a: &Vec<u8>, b: &Vec<u8>) -> (r: bool)
    ensures
        r == (a@ == b@),
{
    if a.len() != b.len() {
        return false;
    }
    let mut i: usize = 0;
    while i < a.len()
        invariant
            i <= a.len(),
            a.len() == b.len(),
            forall|k: int| 0 <= k < i ==> a@[k] == b@[k],
        decreases a.len() - i,
    {
        if a[i] != b[i] {
            return false;
        }
        i += 1;
    }
    assert(a@ =~= b@);
    true
}

/// Copy a list of strings, keeping every string.
pub fn copy_strings(v: &Vec<String>) -> (r: Vec<String>)
    ensures
        r.deep_view() == v.deep_view(),
{
    let mut out: Vec<String> = Vec::new();
    let mut i: usize = 0;
    while i < v.len()
        invariant
            i <= v.len(),
            out.deep_view() =~= v.deep_view().take(i as int),
        decreases v.len() - i,
    {
        let ghost before = out.deep_view();
        out.push(v[i].clone());
        assert(out.deep_view() =~= before.push(v.deep_view()[i as int]));
        i += 1;
    }
    assert(v.deep_view().take(v.len() as int) =~= v.deep_view());
    out
}

/// One list of strings after another.
pub fn join_strings(a: Vec<String>, b: Vec<String>) -> (r: Vec<String>)
    ensures
        r.deep_view() == a.deep_view() + b.deep_view(),
{
    let mut out = a;
    let mut rest = b;
    let ghost first = out.deep_view();
    let ghost second = rest.deep_view();
    let ghost before = out@;
    let ghost tail = rest@;
    out.append(&mut rest);
    assert(out@ == before + tail);
    assert(out.deep_view() =~= first + second) by {
        assert forall|i: int| 0 <= i < out.deep_view().len() implies out.deep_view()[i] == (first + second)[i] by {
            if i < before.len() {
                assert(out@[i] == before[i]);
            } else {
                assert(out@[i] == tail[i - before.len()]);
            }
        }
    }
    out
}

/// Compare two lists of strings element by element.
pub fn strings_equal(a: &Vec<String>, b: &Vec<String>) -> (r: bool)
    ensures
        r == (a.deep_view() == b.deep_view()),
{
    if a.len() != b.len() {
        assert(a.deep_view().len() != b.deep_view().len());
        return false;
    }
    let mut i: usize = 0;
    while i < a.len()
        invariant
            i <= a.len(),
            a.len() == b.len(),
            forall|j: int| 0 <= j < i ==> a[j]@ == b[j]@,
        decreases a.len() - i,
    {
        if a[i] != b[i] {
            assert(a.deep_view()[i as int] != b.deep_view()[i as int]);
            return false;
        }
        i += 1;
    }
    assert(a.deep_view() =~= b.deep_view());
    true
}

impl EquipSet {
    /// Create an equipset that leaves no armor slot empty.
    pub fn new(id: u32, name: String, items: Vec<String>) -> (r: Self)
        ensures
            r@ == (id, name@, items.deep_view(), Seq::<u8>::empty()),
    {
        Self { id, name, items, empty_slots: Vec::new() }
    }

    /// Create an equipset that also empties the given armor slots.
    pub fn new_with_slots(id: u32, name: String, items: Vec<String>, empty_slots: Vec<u8>) -> (r: Self)
        ensures
            r@ == (id, name@, items.deep_view(), empty_slots@),
    {
        Self { id, name, items, empty_slots }
    }

    /// A copy of the armor slots this equipset leaves empty.
    pub fn empty_slots(&self) -> (r: Vec<u8>)
        ensures
            r@ == self@.3,
    {
        copy_slots(&self.empty_slots)
    }

    /// Get this equipset's name.
    pub fn name(&self) -> (r: String)
        ensures
            r@ == self@.1,
    {
        self.name.clone()
    }

    /// Rename this equipset.
    pub fn set_name(&mut self, name: &str)
        ensures
            final(self)@ == (old(self)@.0, name@, old(self)@.2, old(self)@.3),
    {
        self.name = String::from_str(name);
    }

    /// A copy of the form specs of the items of this equipset.
    pub fn item_specs(&self) -> (r: Vec<String>)
        ensures
            r.deep_view() == self@.2,
    {
        copy_strings(&self.items)
    }

    /// The numeric id of this equipset.
    pub fn id(&self) -> (r: u32)
        ensures
            r == self@.0,
    {
        self.id
    }
}

/// Anything that can be in a cycle.
pub trait CycleEntry: View + Sized {
    /// The identifier of an entry, as a function of the entry's value.
    spec fn id_of(v: Self::V) -> Seq<char>;

    /// The identifier of this entry.
    fn identifier(&self) -> (s: String)
        ensures
            s@ == Self::id_of(self@),
    ;

    /// Whether two entries are equal.
    fn same_entry(&self, other: &Self) -> (r: bool)
        ensures
            r == (self@ == other@),
    ;

    /// A copy of this entry.
    fn duplicate(&self) -> (r: Self)
        ensures
            r@ == self@,
    ;
}

impl CycleEntry for EquipSet {
    /// An equipset is identified by its id written in decimal.
    open spec fn id_of(v: SetView) -> Seq<char> {
        decimal(v.0 as nat)
    }

    fn identifier(&self) -> (s: String) {
        u32_to_decimal(self.id)
    }

    fn same_entry(&self, other: &Self) -> (r: bool) {
        self.id == other.id && self.name == other.name && strings_equal(&self.items, &other.items)
            && slots_equal(&self.empty_slots, &other.empty_slots)
    }

    fn duplicate(&self) -> (r: Self) {
        EquipSet {
            id: self.id,
            name: self.name.clone(),
            items: copy_strings(&self.items),
            empty_slots: copy_slots(&self.empty_slots),
        }
    }
}

impl CycleEntry for String {
    /// A string is its own identifier.
    open spec fn id_of(v: Seq<char>) -> Seq<char> {
        v
    }

    fn identifier(&self) -> (s: String) {
        self.clone()
    }

    fn same_entry(&self, other: &Self) -> (r: bool) {
        *self == *other
    }

    fn duplicate(&self) -> (r: Self) {
        self.clone()
    }
}

impl<'a> CycleEntry for &'a str {
    /// A string is its own identifier.
    open spec fn id_of(v: Seq<char>) -> Seq<char> {
        v
    }

    fn identifier(&self) -> (s: String) {
        String::from_str(*self)
    }

    fn same_entry(&self, other: &Self) -> (r: bool) {
        String::from_str(*self) == String::from_str(*other)
    }

    fn duplicate(&self) -> (r: Self) {
        *self
    }
}

/// The values of the entries of a vector, in order.
pub open spec fn entry_views<T: View>(v: Seq<T>) -> Seq<T::V> {
    v.map_values(|x: T| x@)
}

/// The value inside an optional entry.
pub open spec fn opt_view<T: View>(o: Option<T>) -> Option<T::V> {
    match o {
        Some(x) => Some(x@),
        None => None,
    }
}

/// A sequence rotated left by `n`: the first `n` entries move to the end.
pub open spec fn rotated<V>(s: Seq<V>, n: int) -> Seq<V> {
    s.subrange(n, s.len() as int) + s.subrange(0, n)
}

/// The first entry of a sequence, if there is one.
pub open spec fn first_of<V>(s: Seq<V>) -> Option<V> {
    if s.len() > 0 {
        Some(s[0])
    } else {
        None
    }
}

/// The entry after the first one; a single entry is its own next entry.
pub open spec fn next_of<V>(s: Seq<V>) -> Option<V> {
    if s.len() == 1 {
        Some(s[0])
    } else if s.len() >= 2 {
        Some(s[1])
    } else {
        None
    }
}

/// `i` is the first position whose entry has the identifier `id`.
pub open spec fn first_with_id<T: CycleEntry>(s: Seq<T::V>, id: Seq<char>, i: int) -> bool {
    &&& 0 <= i < s.len()
    &&& T::id_of(s[i]) == id
    &&& forall|j: int| 0 <= j < i ==> T::id_of(#[trigger] s[j]) != id
}

/// Whether some entry has the identifier `id`.
pub open spec fn has_id<T: CycleEntry>(s: Seq<T::V>, id: Seq<char>) -> bool {
    exists|i: int| 0 <= i < s.len() && T::id_of(#[trigger] s[i]) == id
}

/// The predicate "differs from `x`".
pub open spec fn differs_from<V>(x: V) -> spec_fn(V) -> bool {
    |v: V| v != x
}

/// The predicate "has an identifier other than `id`".
pub open spec fn id_differs<T: CycleEntry>(id: Seq<char>) -> spec_fn(T::V) -> bool {
    |v: T::V| T::id_of(v) != id
}

/// The entries whose identifier differs from `id`, in order.
pub open spec fn without_id<T: CycleEntry>(s: Seq<T::V>, id: Seq<char>) -> Seq<T::V> {
    s.filter(id_differs::<T>(id))
}

/// A cycle of entries.
pub trait Cycle<T: CycleEntry>: Sized {
    /// The values of the entries, in cycle order; the first is the top.
    spec fn entries(&self) -> Seq<T::V>;

    /// The identifiers of the entries, in order.
    fn ids(&self) -> (r: Vec<String>)
        ensures
            r.deep_view() == self.entries().map_values(|v: T::V| T::id_of(v)),
    ;

    /// The current entry, if the cycle is not empty.
    fn top(&self) -> (r: Option<T>)
        ensures
            opt_view(r) == first_of(self.entries()),
    ;

    /// Rotate the cycle so that the first entry with identifier `top` is
    /// current; a cycle without such an entry is left unchanged.
    fn set_top(&mut self, top: &str)
        ensures
            forall|i: int|
                first_with_id::<T>(old(self).entries(), top@, i) ==> final(self).entries()
                    == rotated(old(self).entries(), i),
            !has_id::<T>(old(self).entries(), top@) ==> final(self).entries() == old(
                self,
            ).entries(),
    ;

    /// Rotate the cycle left by `amount` and return the new current entry.
    fn advance(&mut self, amount: usize) -> (r: Option<T>)
        requires
            amount <= old(self).entries().len(),
        ensures
            final(self).entries() == rotated(old(self).entries(), amount as int),
            opt_view(r) == first_of(final(self).entries()),
    ;

    /// The entry after the current one; a one-entry cycle peeks at itself.
    fn peek_next(&self) -> (r: Option<T>)
        ensures
            opt_view(r) == next_of(self.entries()),
    ;

    /// Whether the cycle holds an entry equal to `item`.
    fn includes(&self, item: &T) -> (r: bool)
        ensures
            r == self.entries().contains(item@),
    ;

    /// Append `item` unless the cycle already holds it; says whether it was added.
    fn add(&mut self, item: &T) -> (r: bool)
        ensures
            r == !old(self).entries().contains(item@),
            r ==> final(self).entries() == old(self).entries().push(item@),
            !r ==> final(self).entries() == old(self).entries(),
    ;

    /// Remove every entry equal to `item`; says whether any was removed.
    fn delete(&mut self, item: &T) -> (r: bool)
        ensures
            final(self).entries() == old(self).entries().filter(differs_from(item@)),
            r == old(self).entries().contains(item@),
    ;

    /// Remove every entry with identifier `id`; says whether any was removed.
    fn filter_id(&mut self, id: &str) -> (r: bool)
        ensures
            final(self).entries() == without_id::<T>(old(self).entries(), id@),
            r == has_id::<T>(old(self).entries(), id@),
    ;
}

/// Copy the entries `from..to` of `v` onto the end of `out`.
fn copy_range<T: CycleEntry>(v: &Vec<T>, from: usize, to: usize, out: &mut Vec<T>)
    requires
        from <= to <= v.len(),
    ensures
        entry_views(final(out)@) == entry_views(old(out)@) + entry_views(v@).subrange(
            from as int,
            to as int,
        ),
{
    let mut i = from;
    while i < to
        invariant
            from <= i <= to <= v.len(),
            entry_views(out@) == entry_views(old(out)@) + entry_views(v@).subrange(
                from as int,
                i as int,
            ),
        decreases to - i,
    {
        let ghost before = out@;
        out.push(v[i].duplicate());
        assert(entry_views(out@) =~= entry_views(before).push(v@[i as int]@));
        assert(entry_views(v@).subrange(from as int, i + 1) =~= entry_views(v@).subrange(
            from as int,
            i as int,
        ).push(v@[i as int]@));
        i += 1;
    }
}

/// Rotate `v` left by `n`.
fn rotate_left_by<T: CycleEntry>(v: &mut Vec<T>, n: usize)
    requires
        n <= old(v).len(),
    ensures
        entry_views(final(v)@) == rotated(entry_views(old(v)@), n as int),
{
    let mut out: Vec<T> = Vec::new();
    let len = v.len();
    copy_range(v, n, len, &mut out);
    copy_range(v, 0, n, &mut out);
    assert(entry_views(out@) =~= rotated(entry_views(v@), n as int));
    *v = out;
}

impl<T: CycleEntry> Cycle<T> for Vec<T> {
    open spec fn entries(&self) -> Seq<T::V> {
        entry_views(self@)
    }

    fn ids(&self) -> (r: Vec<String>) {
        let mut out: Vec<String> = Vec::new();
        let mut i: usize = 0;
        while i < self.len()
            invariant
                i <= self.len(),
                out.deep_view() =~= entry_views(self@).map_values(|v: T::V| T::id_of(v)).take(
                    i as int,
                ),
            decreases self.len() - i,
        {
            let ghost before = out.deep_view();
            out.push(self[i].identifier());
            assert(out.deep_view() =~= before.push(T::id_of(entry_views(self@)[i as int])));
            i += 1;
        }
        out
    }

    fn top(&self) -> (r: Option<T>) {
        if self.len() > 0 {
            Some(self[0].duplicate())
        } else {
            None
        }
    }

    fn set_top(&mut self, top: &str) {
        let target = String::from_str(top);
        let ghost s = entry_views(self@);
        let mut i: usize = 0;
        let mut found = false;
        while i < self.len()
            invariant_except_break
                i <= self.len(),
                s == entry_views(self@),
                target@ == top@,
                forall|j: int| 0 <= j < i ==> T::id_of(#[trigger] s[j]) != top@,
                !found,
            ensures
                s == entry_views(self@),
                found ==> first_with_id::<T>(s, top@, i as int),
                !found ==> forall|j: int| 0 <= j < s.len() ==> T::id_of(#[trigger] s[j]) != top@,
            decreases self.len() - i,
        {
            if self[i].identifier() == target {
                found = true;
                break;
            }
            i += 1;
        }
        if found {
            proof {
                assert forall|k: int| first_with_id::<T>(s, top@, k) implies k == i by {
                    if k < i {
                        assert(T::id_of(s[k]) != top@);
                    }
                    if k > i {
                        assert(T::id_of(s[i as int]) == top@);
                    }
                }
            }
            rotate_left_by(self, i);
        }
    }

    fn advance(&mut self, amount: usize) -> (r: Option<T>) {
        rotate_left_by(self, amount);
        self.top()
    }

    fn peek_next(&self) -> (r: Option<T>) {
        if self.len() == 1 {
            Some(self[0].duplicate())
        } else if self.len() >= 2 {
            Some(self[1].duplicate())
        } else {
            None
        }
    }

    fn includes(&self, item: &T) -> (r: bool) {
        let mut i: usize = 0;
        while i < self.len()
            invariant
                i <= self.len(),
                forall|j: int| 0 <= j < i ==> entry_views(self@)[j] != item@,
            decreases self.len() - i,
        {
            if self[i].same_entry(item) {
                assert(entry_views(self@)[i as int] == item@);
                return true;
            }
            i += 1;
        }
        false
    }

    fn add(&mut self, item: &T) -> (r: bool) {
        if self.includes(item) {
            false
        } else {
            let ghost before = self@;
            self.push(item.duplicate());
            assert(entry_views(self@) =~= entry_views(before).push(item@));
            true
        }
    }

    fn delete(&mut self, item: &T) -> (r: bool) {
        let ghost s = entry_views(self@);
        let mut out: Vec<T> = Vec::new();
        let mut i: usize = 0;
        while i < self.len()
            invariant
                i <= self.len(),
                s == entry_views(self@),
                entry_views(out@) == s.take(i as int).filter(differs_from(item@)),
                (out.len() == i) == (forall|j: int| 0 <= j < i ==> s[j] != item@),
                out.len() <= i,
            decreases self.len() - i,
        {
            let ghost before = out@;
            assert(s.take(i + 1).drop_last() =~= s.take(i as int));
            assert(s.take(i + 1).last() == s[i as int]);
            assert(self@[i as int]@ == s[i as int]);
            reveal(Seq::filter);
            assert(s.take(i + 1).filter(differs_from(item@)) == (if s[i as int] != item@ {
                s.take(i as int).filter(differs_from(item@)).push(s[i as int])
            } else {
                s.take(i as int).filter(differs_from(item@))
            }));
            if !self[i].same_entry(item) {
                out.push(self[i].duplicate());
                assert(entry_views(out@) =~= entry_views(before).push(s[i as int]));
            }
            i += 1;
        }
        assert(s.take(self.len() as int) =~= s);
        let removed = out.len() != self.len();
        *self = out;
        removed
    }

    fn filter_id(&mut self, id: &str) -> (r: bool) {
        let ghost s = entry_views(self@);
        let target = String::from_str(id);
        let mut out: Vec<T> = Vec::new();
        let mut i: usize = 0;
        while i < self.len()
            invariant
                i <= self.len(),
                s == entry_views(self@),
                target@ == id@,
                entry_views(out@) == s.take(i as int).filter(id_differs::<T>(id@)),
                (out.len() == i) == (forall|j: int| 0 <= j < i ==> T::id_of(#[trigger] s[j]) != id@),
                out.len() <= i,
            decreases self.len() - i,
        {
            let ghost before = out@;
            assert(s.take(i + 1).drop_last() =~= s.take(i as int));
            assert(s.take(i + 1).last() == s[i as int]);
            assert(self@[i as int]@ == s[i as int]);
            reveal(Seq::filter);
            assert(s.take(i + 1).filter(id_differs::<T>(id@)) == (if T::id_of(s[i as int]) != id@ {
                s.take(i as int).filter(id_differs::<T>(id@)).push(s[i as int])
            } else {
                s.take(i as int).filter(id_differs::<T>(id@))
            }));
            if self[i].identifier() != target {
                out.push(self[i].duplicate());
                assert(entry_views(out@) =~= entry_views(before).push(s[i as int]));
            }
            i += 1;
        }
        assert(s.take(self.len() as int) =~= s);
        let removed = out.len() != self.len();
        *self = out;
        removed
    }
}

/// How many equipsets in `s` have the id `v`.
pub open spec fn id_count(s: Seq<SetView>, v: int) -> nat
    decreases s.len(),
{
    if s.len() == 0 {
        0
    } else {
        id_count(s.drop_last(), v) + (if s.last().0 == v {
            1nat
        } else {
            0nat
        })
    }
}

/// Every id below `m` is used by exactly one equipset.
pub open spec fn ids_unique_below(s: Seq<SetView>, m: int) -> bool {
    forall|v: int| 0 <= v < m ==> #[trigger] id_count(s, v) == 1
}

/// The id the next new equipset gets: with the ids sorted, the first
/// position `k` whose id is not `k`, or the number of sets when there is none.
pub open spec fn next_id_spec(s: Seq<SetView>, r: int) -> bool {
    exists|m: int|
        0 <= m <= s.len() && ids_unique_below(s, m) && (m == s.len() || id_count(s, m) != 1) && r
            == (if m == s.len() {
            m
        } else if id_count(s, m) == 0 {
            m
        } else {
            m + 1
        })
}

/// The id the next new equipset gets.
pub open spec fn next_id(s: Seq<SetView>) -> int {
    choose|r: int| next_id_spec(s, r)
}

/// At most one id satisfies `next_id_spec`.
pub proof fn lemma_next_id_unique(s: Seq<SetView>, r1: int, r2: int)
    requires
        next_id_spec(s, r1),
        next_id_spec(s, r2),
    ensures
        r1 == r2,
{
    let m1 = choose|m: int|
        0 <= m <= s.len() && ids_unique_below(s, m) && (m == s.len() || id_count(s, m) != 1) && r1
            == (if m == s.len() {
            m
        } else if id_count(s, m) == 0 {
            m
        } else {
            m + 1
        });
    let m2 = choose|m: int|
        0 <= m <= s.len() && ids_unique_below(s, m) && (m == s.len() || id_count(s, m) != 1) && r2
            == (if m == s.len() {
            m
        } else if id_count(s, m) == 0 {
            m
        } else {
            m + 1
        });
    if m1 < m2 {
        assert(id_count(s, m1) == 1);
    } else if m2 < m1 {
        assert(id_count(s, m2) == 1);
    }
}

/// Whatever satisfies `next_id_spec` is `next_id`.
pub proof fn lemma_next_id_is(s: Seq<SetView>, r: int)
    requires
        next_id_spec(s, r),
    ensures
        next_id(s) == r,
        next_id_spec(s, next_id(s)),
{
    lemma_next_id_unique(s, r, next_id(s));
}

/// No two equipsets share an id.
pub open spec fn ids_distinct(s: Seq<SetView>) -> bool {
    forall|i: int, j: int| 0 <= i < s.len() && 0 <= j < s.len() && i != j ==> s[i].0 != s[j].0
}

/// The ids of the equipsets, in order.
pub open spec fn ids_of(s: Seq<SetView>) -> Seq<u32> {
    s.map_values(|e: SetView| e.0)
}

/// The ids appear in ascending order.
pub open spec fn ids_sorted(ids: Seq<u32>) -> bool {
    forall|i: int, j: int| 0 <= i <= j < ids.len() ==> ids[i] <= ids[j]
}

/// The position of the first id equal to `id`, or the length of the list
/// when there is none.
pub open spec fn id_index(ids: Seq<u32>, id: u32) -> int
    decreases ids.len(),
{
    if ids.len() == 0 {
        0
    } else if ids[0] == id {
        0
    } else {
        1 + id_index(ids.drop_first(), id)
    }
}

/// The position of the first equipset with the given id, if any.
pub open spec fn id_position(s: Seq<SetView>, id: u32) -> Option<int> {
    let k = id_index(ids_of(s), id);
    if k < s.len() {
        Some(k)
    } else {
        None
    }
}

/// A position before which no id equals `id`, and which is the end of the
/// list or holds `id`, is the first position of `id`.
pub proof fn lemma_id_index(ids: Seq<u32>, id: u32, i: int)
    requires
        0 <= i <= ids.len(),
        forall|j: int| 0 <= j < i ==> ids[j] != id,
        i == ids.len() || ids[i] == id,
    ensures
        id_index(ids, id) == i,
    decreases i,
{
    if i > 0 {
        let rest = ids.drop_first();
        assert forall|j: int| 0 <= j < i - 1 implies rest[j] != id by {
            assert(rest[j] == ids[j + 1]);
        }
        if i < ids.len() {
            assert(rest[i - 1] == ids[i]);
        }
        lemma_id_index(rest, id, i - 1);
    }
}

/// The first position of an id holds it, and no position before it does;
/// an id found nowhere is not among the ids.
pub proof fn lemma_id_position(s: Seq<SetView>, id: u32)
    ensures
        id_position(s, id) matches Some(i) ==> 0 <= i < s.len() && s[i].0 == id && forall|j: int|
            0 <= j < i ==> s[j].0 != id,
        id_position(s, id) is None ==> !ids_of(s).contains(id),
{
    let ids = ids_of(s);
    lemma_id_index_found(ids, id);
    let k = id_index(ids, id);
    if k < s.len() {
        assert(ids[k] == s[k].0);
        assert forall|j: int| 0 <= j < k implies s[j].0 != id by {
            assert(ids[j] == s[j].0);
        }
    }
}

/// What `id_index` finds: a position of `id` with none before it, or the
/// end of a list without `id`.
proof fn lemma_id_index_found(ids: Seq<u32>, id: u32)
    ensures
        0 <= id_index(ids, id) <= ids.len(),
        forall|j: int| 0 <= j < id_index(ids, id) ==> ids[j] != id,
        id_index(ids, id) < ids.len() ==> ids[id_index(ids, id)] == id,
    decreases ids.len(),
{
    if ids.len() > 0 && ids[0] != id {
        let rest = ids.drop_first();
        lemma_id_index_found(rest, id);
        assert forall|j: int| 0 <= j < id_index(ids, id) implies ids[j] != id by {
            if j > 0 {
                assert(ids[j] == rest[j - 1]);
            }
        }
        if id_index(ids, id) < ids.len() {
            assert(ids[id_index(ids, id)] == rest[id_index(rest, id)]);
        }
    }
}

/// The position of the first equipset with the given id: `Ok` with the
/// position, or `Err` with the length of the list when there is none.
fn position_of_id(sets: &Vec<EquipSet>, id: u32) -> (r: Result<usize, usize>)
    ensures
        found_inside(r, sets@.len()) == id_position(entry_views(sets@), id),
        (r is Ok) == ids_of(entry_views(sets@)).contains(id),
        r matches Ok(i) ==> i < sets@.len(),
{
    let ghost ids = ids_of(entry_views(sets@));
    let mut i: usize = 0;
    while i < sets.len()
        invariant
            i <= sets@.len(),
            ids == ids_of(entry_views(sets@)),
            forall|j: int| 0 <= j < i ==> ids[j] != id,
        decreases sets.len() - i,
    {
        assert(ids[i as int] == sets@[i as int]@.0);
        if sets[i].id == id {
            proof {
                lemma_id_index(ids, id, i as int);
            }
            return Ok(i);
        }
        i += 1;
    }
    proof {
        lemma_id_index(ids, id, i as int);
        assert(!ids.contains(id));
    }
    Err(i)
}

/// The position a search result points at, when it found one inside a list of `len` entries.
pub open spec fn found_inside(found: Result<usize, usize>, len: nat) -> Option<int> {
    match found {
        Ok(i) => if i < len {
            Some(i as int)
        } else {
            None
        },
        Err(_) => None,
    }
}

/// Replace the items of the equipset at the position a search found; says
/// whether there was such a position.
pub fn update_found(
    sets: &mut Vec<EquipSet>,
    found: Result<usize, usize>,
    items: Vec<String>,
    empty_slots: Vec<u8>,
) -> (r: bool)
    ensures
        match found_inside(found, old(sets)@.len()) {
            Some(i) => r && entry_views(final(sets)@) == entry_views(old(sets)@).update(
                i,
                (entry_views(old(sets)@)[i].0, entry_views(old(sets)@)[i].1, items.deep_view(), empty_slots@),
            ),
            None => !r && entry_views(final(sets)@) == entry_views(old(sets)@),
        },
{
    match found {
        Ok(idx) => {
            if idx < sets.len() {
                let ghost before = entry_views(sets@);
                let mut e = sets[idx].duplicate();
                e.items = items;
                e.empty_slots = empty_slots;
                sets.set(idx, e);
                assert(entry_views(sets@) =~= before.update(
                    idx as int,
                    (before[idx as int].0, before[idx as int].1, items.deep_view(), empty_slots@),
                ));
                true
            } else {
                false
            }
        },
        Err(_) => false,
    }
}

/// Rename the equipset at the position a search found; says whether there
/// was such a position.
pub fn rename_found(sets: &mut Vec<EquipSet>, found: Result<usize, usize>, name: String) -> (r: bool)
    ensures
        match found_inside(found, old(sets)@.len()) {
            Some(i) => r && entry_views(final(sets)@) == entry_views(old(sets)@).update(
                i,
                (entry_views(old(sets)@)[i].0, name@, entry_views(old(sets)@)[i].2, entry_views(old(sets)@)[i].3),
            ),
            None => !r && entry_views(final(sets)@) == entry_views(old(sets)@),
        },
{
    match found {
        Ok(idx) => {
            if idx < sets.len() {
                let ghost before = entry_views(sets@);
                let mut e = sets[idx].duplicate();
                e.set_name(name.as_str());
                sets.set(idx, e);
                assert(entry_views(sets@) =~= before.update(
                    idx as int,
                    (before[idx as int].0, name@, before[idx as int].2, before[idx as int].3),
                ));
                true
            } else {
                false
            }
        },
        Err(_) => false,
    }
}

/// Additional behavior needed by cycles of equipsets.
pub trait UpdateableItemCycle {
    type T;

    /// The number of equipsets.
    spec fn set_count(&self) -> nat;

    /// The id to give a new equipset.
    fn find_next_id(&self) -> u32
        requires
            self.set_count() < u32::MAX,
    ;

    /// Replace the items of the equipset with the given id.
    fn update_set(&mut self, id: u32, items: Vec<String>, empty_slots: Vec<u8>) -> bool;

    /// Rename the equipset with the given id.
    fn rename_by_id(&mut self, id: u32, name: String) -> bool;

    /// The first equipset with the given id.
    fn get_by_id(&self, id: u32) -> Option<&Self::T>;
}

fn count_with_id(v: &Vec<EquipSet>, id: u32) -> (r: usize)
    ensures
        r == id_count(entry_views(v@), id as int),
{
    let ghost s = entry_views(v@);
    let mut n: usize = 0;
    let mut i: usize = 0;
    while i < v.len()
        invariant
            i <= v.len(),
            s == entry_views(v@),
            n == id_count(s.take(i as int), id as int),
            n <= i,
        decreases v.len() - i,
    {
        assert(s.take(i + 1).drop_last() =~= s.take(i as int));
        if v[i].id == id {
            n += 1;
        }
        i += 1;
    }
    assert(s.take(v.len() as int) =~= s);
    n
}

impl UpdateableItemCycle for Vec<EquipSet> {
    type T = EquipSet;

    open spec fn set_count(&self) -> nat {
        self@.len()
    }

    /// Searches for a hole in the sorted ids and fills it in, otherwise
    /// takes the next id after the last.
    fn find_next_id(&self) -> (r: u32)
        ensures
            next_id_spec(entry_views(self@), r as int),
    {
        let ghost s = entry_views(self@);
        let mut m: usize = 0;
        while m < self.len() && count_with_id(self, m as u32) == 1
            invariant
                m <= self.len(),
                self.len() < u32::MAX,
                s == entry_views(self@),
                ids_unique_below(s, m as int),
            decreases self.len() - m,
        {
            m += 1;
        }
        if m == self.len() {
            assert(next_id_spec(s, m as int));
            m as u32
        } else if count_with_id(self, m as u32) == 0 {
            assert(next_id_spec(s, m as int));
            m as u32
        } else {
            assert(next_id_spec(s, m + 1));
            (m + 1) as u32
        }
    }

    fn update_set(&mut self, id: u32, items: Vec<String>, empty_slots: Vec<u8>) -> (r: bool)
        ensures
            match id_position(entry_views(old(self)@), id) {
                Some(i) => r && entry_views(final(self)@) == entry_views(old(self)@).update(
                    i,
                    (entry_views(old(self)@)[i].0, entry_views(old(self)@)[i].1, items.deep_view(), empty_slots@),
                ),
                None => !r && entry_views(final(self)@) == entry_views(old(self)@),
            },
            r == ids_of(entry_views(old(self)@)).contains(id),
    {
        let found = position_of_id(self, id);
        update_found(self, found, items, empty_slots)
    }

    fn rename_by_id(&mut self, id: u32, name: String) -> (r: bool)
        ensures
            match id_position(entry_views(old(self)@), id) {
                Some(i) => r && entry_views(final(self)@) == entry_views(old(self)@).update(
                    i,
                    (entry_views(old(self)@)[i].0, name@, entry_views(old(self)@)[i].2, entry_views(old(self)@)[i].3),
                ),
                None => !r && entry_views(final(self)@) == entry_views(old(self)@),
            },
            r == ids_of(entry_views(old(self)@)).contains(id),
    {
        let found = position_of_id(self, id);
        rename_found(self, found, name)
    }

    fn get_by_id(&self, id: u32) -> (r: Option<&EquipSet>)
        ensures
            r is Some <==> ids_of(entry_views(self@)).contains(id),
            r matches Some(e) ==> exists|i: int|
                0 <= i < self@.len() && self@[i]@ == e@ && e@.0 == id && forall|j: int|
                    0 <= j < i ==> #[trigger] self@[j]@.0 != id,
    {
        let mut i: usize = 0;
        while i < self.len()
            invariant
                i <= self.len(),
                forall|j: int| 0 <= j < i ==> #[trigger] self@[j]@.0 != id,
            decreases self.len() - i,
        {
            if self[i].id == id {
                assert(ids_of(entry_views(self@))[i as int] == id);
                return Some(&self[i]);
            }
            i += 1;
        }
        assert forall|k: int| 0 <= k < self@.len() implies ids_of(entry_views(self@))[k] != id by {
            assert(self@[k]@.0 != id);
        }
        None
    }
}

/// How many equipsets in `s` have an id below `m`.
pub open spec fn count_below(s: Seq<SetView>, m: int) -> nat
    decreases s.len(),
{
    if s.len() == 0 {
        0
    } else {
        count_below(s.drop_last(), m) + (if s.last().0 < m {
            1nat
        } else {
            0nat
        })
    }
}

proof fn lemma_count_zero_absent(s: Seq<SetView>, v: int)
    requires
        id_count(s, v) == 0,
    ensures
        forall|i: int| 0 <= i < s.len() ==> s[i].0 != v,
    decreases s.len(),
{
    if s.len() > 0 {
        lemma_count_zero_absent(s.drop_last(), v);
        assert forall|i: int| 0 <= i < s.len() implies s[i].0 != v by {
            if i < s.len() - 1 {
                assert(s.drop_last()[i] == s[i]);
            }
        }
    }
}

proof fn lemma_distinct_count_at_most_one(s: Seq<SetView>, v: int)
    requires
        ids_distinct(s),
    ensures
        id_count(s, v) <= 1,
    decreases s.len(),
{
    if s.len() > 0 {
        let t = s.drop_last();
        assert(ids_distinct(t)) by {
            assert forall|i: int, j: int|
                0 <= i < t.len() && 0 <= j < t.len() && i != j implies t[i].0 != t[j].0 by {
                assert(t[i] == s[i] && t[j] == s[j]);
            }
        }
        lemma_distinct_count_at_most_one(t, v);
        if s.last().0 == v && id_count(t, v) != 0 {
            assert(id_count(t, v) == 1);
            if forall|i: int| 0 <= i < t.len() ==> t[i].0 != v {
                lemma_count_positive_witness(t, v);
            }
            let i = choose|i: int| 0 <= i < t.len() && t[i].0 == v;
            assert(s[i].0 == s[s.len() - 1].0);
        }
    }
}

proof fn lemma_count_positive_witness(s: Seq<SetView>, v: int)
    requires
        id_count(s, v) > 0,
    ensures
        exists|i: int| 0 <= i < s.len() && s[i].0 == v,
    decreases s.len(),
{
    if s.last().0 == v {
        assert(s[s.len() - 1].0 == v);
    } else {
        lemma_count_positive_witness(s.drop_last(), v);
        let i = choose|i: int| 0 <= i < s.drop_last().len() && s.drop_last()[i].0 == v;
        assert(s[i].0 == v);
    }
}

proof fn lemma_count_below_step(s: Seq<SetView>, m: int)
    requires
        m >= 0,
    ensures
        count_below(s, m + 1) == count_below(s, m) + id_count(s, m),
    decreases s.len(),
{
    if s.len() > 0 {
        lemma_count_below_step(s.drop_last(), m);
    }
}

proof fn lemma_count_below_full(s: Seq<SetView>, m: int)
    ensures
        count_below(s, m) <= s.len(),
        count_below(s, m) == s.len() ==> forall|i: int| 0 <= i < s.len() ==> s[i].0 < m,
    decreases s.len(),
{
    if s.len() > 0 {
        lemma_count_below_full(s.drop_last(), m);
        if count_below(s, m) == s.len() {
            assert forall|i: int| 0 <= i < s.len() implies s[i].0 < m by {
                if i < s.len() - 1 {
                    assert(s.drop_last()[i] == s[i]);
                }
            }
        }
    }
}

proof fn lemma_count_below_zero(s: Seq<SetView>)
    ensures
        count_below(s, 0) == 0,
    decreases s.len(),
{
    if s.len() > 0 {
        lemma_count_below_zero(s.drop_last());
    }
}

proof fn lemma_unique_ids_fill_prefix(s: Seq<SetView>, k: int)
    requires
        0 <= k,
        ids_unique_below(s, k),
    ensures
        count_below(s, k) == k,
    decreases k,
{
    if k > 0 {
        lemma_unique_ids_fill_prefix(s, k - 1);
        lemma_count_below_step(s, k - 1);
        assert(id_count(s, k - 1) == 1);
    } else {
        lemma_count_below_zero(s);
    }
}

/// When no two equipsets share an id, the id picked for a new equipset is
/// not used by any of them.
pub proof fn lemma_next_id_is_fresh(s: Seq<SetView>, r: int)
    requires
        ids_distinct(s),
        next_id_spec(s, r),
    ensures
        forall|i: int| 0 <= i < s.len() ==> s[i].0 != r,
{
    let m = choose|m: int|
        0 <= m <= s.len() && ids_unique_below(s, m) && (m == s.len() || id_count(s, m) != 1) && r
            == (if m == s.len() {
            m
        } else if id_count(s, m) == 0 {
            m
        } else {
            m + 1
        });
    if m == s.len() {
        lemma_unique_ids_fill_prefix(s, m);
        lemma_count_below_full(s, m);
    } else {
        lemma_distinct_count_at_most_one(s, m);
        lemma_count_zero_absent(s, m);
    }
}

} // verus!
