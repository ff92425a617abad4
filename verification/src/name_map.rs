//! A map keyed by strings that keeps its entries in ascending order of name.
use vstd::prelude::*;

use crate::text::comes_before;
#[allow(unused_imports)]
use crate::text::{name_before, name_before_is_irreflexive, name_before_is_total, name_before_is_transitive};

verus! {

/// Whether the names of the entries ascend strictly.
pub open spec fn ascending<T>(entries: Seq<(Seq<char>, T)>) -> bool {
    forall|i: int, j: int|
        0 <= i < j < entries.len() ==> name_before(#[trigger] entries[i].0, #[trigger] entries[j].0)
}

/// Whether some entry has the name.
pub open spec fn has_name<T>(entries: Seq<(Seq<char>, T)>, name: Seq<char>) -> bool {
    exists|i: int| 0 <= i < entries.len() && (#[trigger] entries[i]).0 == name
}

/// An entry's position, where some entry has the name.
pub open spec fn position_of<T>(entries: Seq<(Seq<char>, T)>, name: Seq<char>) -> int {
    choose|i: int| 0 <= i < entries.len() && (#[trigger] entries[i]).0 == name
}

/// The map from the names of the entries to their values.
pub open spec fn as_map<T>(entries: Seq<(Seq<char>, T)>) -> Map<Seq<char>, T> {
    Map::new(
        |name: Seq<char>| has_name(entries, name),
        |name: Seq<char>| entries[position_of(entries, name)].1,
    )
}

/// The entries of a map with finitely many names, in ascending order of name.
pub open spec fn sorted_entries<T>(map: Map<Seq<char>, T>) -> Seq<(Seq<char>, T)> {
    choose|entries: Seq<(Seq<char>, T)>| ascending(entries) && as_map(entries) == map
}

proof fn lemma_name_once<T>(entries: Seq<(Seq<char>, T)>, i: int)
    requires
        ascending(entries),
        0 <= i < entries.len(),
    ensures
        has_name(entries, entries[i].0),
        position_of(entries, entries[i].0) == i,
        as_map(entries).contains_key(entries[i].0),
        as_map(entries)[entries[i].0] == entries[i].1,
{
    let name = entries[i].0;
    assert(has_name(entries, name));
    let j = position_of(entries, name);
    name_before_is_irreflexive(name);
    assert(entries[j].0 == name);
}

/// Two ascending lists of entries that make the same map are the same list.
pub proof fn sorted_entries_are_unique<T>(a: Seq<(Seq<char>, T)>, b: Seq<(Seq<char>, T)>)
    requires
        ascending(a),
        ascending(b),
        as_map(a) == as_map(b),
    ensures
        a == b,
    decreases a.len(),
{
    if a.len() == 0 {
        if b.len() > 0 {
            lemma_name_once(b, 0);
            assert(as_map(a).contains_key(b[0].0));
            assert(false);
        }
        assert(a =~= b);
    } else if b.len() == 0 {
        lemma_name_once(a, 0);
        assert(as_map(b).contains_key(a[0].0));
        assert(false);
    } else {
        let x = a.last().0;
        let y = b.last().0;
        lemma_name_once(a, a.len() - 1);
        lemma_name_once(b, b.len() - 1);
        assert(as_map(b).contains_key(x));
        assert(as_map(a).contains_key(y));
        let j = position_of(b, x);
        let i = position_of(a, y);
        assert(b[j].0 == x);
        assert(a[i].0 == y);
        if x != y {
            name_before_is_transitive(x, y, x);
            name_before_is_irreflexive(x);
        }
        assert(a.last() == b.last());
        assert forall|name: Seq<char>| #[trigger]
            as_map(a.drop_last()).contains_key(name) == as_map(b.drop_last()).contains_key(name) by {
            lemma_drop_last(a, name);
            lemma_drop_last(b, name);
        }
        assert forall|name: Seq<char>| as_map(a.drop_last()).contains_key(name) implies #[trigger] as_map(
            a.drop_last(),
        )[name] == as_map(b.drop_last())[name] by {
            lemma_drop_last(a, name);
            lemma_drop_last(b, name);
            assert(as_map(b.drop_last()).contains_key(name));
        }
        assert(as_map(a.drop_last()) =~= as_map(b.drop_last()));
        sorted_entries_are_unique(a.drop_last(), b.drop_last());
        assert(a =~= a.drop_last().push(a.last()));
        assert(b =~= b.drop_last().push(b.last()));
    }
}

proof fn lemma_drop_last<T>(a: Seq<(Seq<char>, T)>, name: Seq<char>)
    requires
        ascending(a),
        a.len() > 0,
    ensures
        as_map(a.drop_last()).contains_key(name) <==> as_map(a).contains_key(name) && name
            != a.last().0,
        as_map(a.drop_last()).contains_key(name) ==> as_map(a.drop_last())[name] == as_map(a)[name],
{
    let d = a.drop_last();
    if has_name(d, name) {
        let i = position_of(d, name);
        assert(d[i] == a[i]);
        lemma_name_once(a, i);
        name_before_is_irreflexive(name);
        lemma_name_once(d, i);
    }
    if has_name(a, name) && name != a.last().0 {
        let i = position_of(a, name);
        assert(a[i].0 == name);
        assert(d[i] == a[i]);
        assert(has_name(d, name));
    }
}

/// An ascending list of entries is what `sorted_entries` picks for its map.
pub proof fn sorted_entries_of_ascending<T>(entries: Seq<(Seq<char>, T)>)
    requires
        ascending(entries),
    ensures
        sorted_entries(as_map(entries)) == entries,
{
    let picked = sorted_entries(as_map(entries));
    assert(ascending(entries) && as_map(entries) == as_map(entries));
    sorted_entries_are_unique(picked, entries);
}

proof fn lemma_place<T>(s: Seq<(Seq<char>, T)>, name: Seq<char>) -> (index: int)
    requires
        ascending(s),
        !has_name(s, name),
    ensures
        0 <= index <= s.len(),
        forall|i: int| 0 <= i < index ==> name_before(#[trigger] s[i].0, name),
        forall|i: int| index <= i < s.len() ==> name_before(name, #[trigger] s[i].0),
    decreases s.len(),
{
    if s.len() == 0 {
        0
    } else {
        let rest = s.drop_last();
        let last = s.last().0;
        assert(s[s.len() - 1].0 == last);
        name_before_is_total(last, name);
        if name_before(last, name) {
            assert forall|i: int| 0 <= i < s.len() implies name_before(#[trigger] s[i].0, name) by {
                if i < s.len() - 1 {
                    name_before_is_transitive(s[i].0, last, name);
                }
            }
            s.len() as int
        } else {
            assert forall|i: int| 0 <= i < rest.len() implies (#[trigger] rest[i]).0 != name by {
                assert(rest[i] == s[i]);
            }
            let index = lemma_place(rest, name);
            assert forall|i: int| 0 <= i < index implies name_before(#[trigger] s[i].0, name) by {
                assert(rest[i] == s[i]);
            }
            assert forall|i: int| index <= i < s.len() implies name_before(name, #[trigger] s[i].0) by {
                if i < s.len() - 1 {
                    assert(rest[i] == s[i]);
                }
            }
            index
        }
    }
}

/// A map with finitely many names has its entries in ascending order.
pub proof fn sorted_entries_of_finite<T>(map: Map<Seq<char>, T>)
    requires
        map.dom().finite(),
    ensures
        ascending(sorted_entries(map)),
        as_map(sorted_entries(map)) == map,
    decreases map.dom().len(),
{
    if map.dom().len() == 0 {
        let none = Seq::<(Seq<char>, T)>::empty();
        assert(as_map(none) =~= map);
        sorted_entries_of_ascending(none);
    } else {
        let name = map.dom().choose();
        let rest = map.remove(name);
        sorted_entries_of_finite(rest);
        let s = sorted_entries(rest);
        assert(!as_map(s).contains_key(name));
        let index = lemma_place(s, name);
        lemma_inserted(s, index, name, map[name]);
        assert(rest.insert(name, map[name]) =~= map);
        sorted_entries_of_ascending(s.insert(index, (name, map[name])));
    }
}

/// The sorted entries of a map are its names with their values, each once, and
/// every name comes before those behind it.
pub proof fn sorted_entries_list_the_map<T>(map: Map<Seq<char>, T>)
    requires
        map.dom().finite(),
    ensures
        forall|i: int, j: int|
            0 <= i < j < sorted_entries(map).len() ==> name_before(
                #[trigger] sorted_entries(map)[i].0,
                #[trigger] sorted_entries(map)[j].0,
            ),
        forall|i: int|
            0 <= i < sorted_entries(map).len() ==> map.contains_key(
                #[trigger] sorted_entries(map)[i].0,
            ) && map[sorted_entries(map)[i].0] == sorted_entries(map)[i].1,
        forall|name: Seq<char>| #[trigger]
            map.contains_key(name) ==> exists|i: int|
                0 <= i < sorted_entries(map).len() && (#[trigger] sorted_entries(map)[i]).0 == name,
{
    sorted_entries_of_finite(map);
    let entries = sorted_entries(map);
    assert forall|i: int| 0 <= i < entries.len() implies map.contains_key(#[trigger] entries[i].0)
        && map[entries[i].0] == entries[i].1 by {
        lemma_name_once(entries, i);
    }
    assert forall|name: Seq<char>| #[trigger] map.contains_key(name) implies exists|i: int|
        0 <= i < entries.len() && (#[trigger] entries[i]).0 == name by {
        assert(as_map(entries).contains_key(name));
    }
}

/// A map shows every value under its name, as that value is shown.
pub proof fn maps_show_their_values<V: DeepView>(map: NameMap<V>, name: Seq<char>)
    ensures
        map.deep_view().contains_key(name) <==> map@.contains_key(name),
        map@.contains_key(name) ==> map.deep_view()[name] == map@[name].deep_view(),
{
}

/// The names of ascending entries are as many as the entries.
proof fn lemma_names_counted<T>(entries: Seq<(Seq<char>, T)>)
    requires
        ascending(entries),
    ensures
        as_map(entries).dom().finite(),
        as_map(entries).dom().len() == entries.len(),
    decreases entries.len(),
{
    if entries.len() == 0 {
        assert(as_map(entries).dom() =~= Set::empty());
    } else {
        let rest = entries.drop_last();
        lemma_names_counted(rest);
        let last = entries.last().0;
        lemma_name_once(entries, entries.len() - 1);
        assert forall|name: Seq<char>| #[trigger]
            as_map(rest).contains_key(name) == (as_map(entries).contains_key(name) && name != last) by {
            lemma_drop_last(entries, name);
        }
        assert(as_map(entries).dom() =~= as_map(rest).dom().insert(last));
    }
}

/// Where every value of a map is changed in the same way, the order of the
/// entries stays.
pub proof fn sorted_entries_of_mapped<T, U>(
    entries: Seq<(Seq<char>, T)>,
    map: Map<Seq<char>, T>,
    change: spec_fn(T) -> U,
)
    requires
        ascending(entries),
        as_map(entries) == map,
    ensures
        sorted_entries(map.map_values(change)) == entries.map_values(
            |entry: (Seq<char>, T)| (entry.0, change(entry.1)),
        ),
{
    let changed = entries.map_values(|entry: (Seq<char>, T)| (entry.0, change(entry.1)));
    assert(ascending(changed)) by {
        assert forall|i: int, j: int| 0 <= i < j < changed.len() implies name_before(
            #[trigger] changed[i].0,
            #[trigger] changed[j].0,
        ) by {
            assert(changed[i].0 == entries[i].0 && changed[j].0 == entries[j].0);
        }
    }
    assert forall|name: Seq<char>| #[trigger] has_name(changed, name) == has_name(entries, name) by {
        if has_name(entries, name) {
            assert(changed[position_of(entries, name)].0 == name);
        }
        if has_name(changed, name) {
            assert(entries[position_of(changed, name)].0 == name);
        }
    }
    assert forall|name: Seq<char>| as_map(changed).contains_key(name) implies #[trigger] as_map(
        changed,
    )[name] == map.map_values(change)[name] by {
        let i = position_of(changed, name);
        assert(changed[i].0 == name);
        lemma_name_once(changed, i);
        lemma_name_once(entries, i);
    }
    assert(as_map(changed) =~= map.map_values(change));
    sorted_entries_of_ascending(changed);
}

/// Entries in ascending order of name, each name at most once.
#[derive(Debug)]
pub struct NameMap<V> {
    entries: Vec<(String, V)>,
}

impl<V> View for NameMap<V> {
    type V = Map<Seq<char>, V>;

    closed spec fn view(&self) -> Map<Seq<char>, V> {
        as_map(named(self.entries@))
    }
}

impl<V: DeepView> DeepView for NameMap<V> {
    type V = Map<Seq<char>, V::V>;

    open spec fn deep_view(&self) -> Map<Seq<char>, V::V> {
        self@.map_values(|value: V| value.deep_view())
    }
}

spec fn named<V>(entries: Seq<(String, V)>) -> Seq<(Seq<char>, V)> {
    entries.map_values(|entry: (String, V)| (entry.0@, entry.1))
}

impl<V> NameMap<V> {
    #[verifier::type_invariant]
    spec fn ordered(self) -> bool {
        ascending(named(self.entries@))
    }

    /// A map without entries.
    pub fn new() -> (map: Self)
        ensures
            map@ == Map::<Seq<char>, V>::empty(),
    {
        let map = NameMap { entries: Vec::new() };
        assert(map@ =~= Map::<Seq<char>, V>::empty());
        map
    }

    /// The number of entries.
    pub fn len(&self) -> (count: usize)
        ensures
            self@.dom().finite(),
            count == self@.dom().len(),
            count == sorted_entries(self@).len(),
    {
        proof {
            use_type_invariant(self);
            sorted_entries_of_ascending(named(self.entries@));
            lemma_names_counted(named(self.entries@));
        }
        self.entries.len()
    }

    /// The name of the entry at a position, counted in ascending order of name.
    pub fn name_at(&self, index: usize) -> (name: &str)
        requires
            index < sorted_entries(self@).len(),
        ensures
            name@ == sorted_entries(self@)[index as int].0,
    {
        proof {
            use_type_invariant(self);
            sorted_entries_of_ascending(named(self.entries@));
        }
        self.entries[index].0.as_str()
    }

    /// The value of the entry at a position, counted in ascending order of name.
    pub fn value_at(&self, index: usize) -> (value: &V)
        requires
            index < sorted_entries(self@).len(),
        ensures
            *value == sorted_entries(self@)[index as int].1,
    {
        proof {
            use_type_invariant(self);
            sorted_entries_of_ascending(named(self.entries@));
        }
        &self.entries[index].1
    }

    /// The first position whose name does not come before `name`, and whether
    /// `name` stands there.
    fn place(entries: &Vec<(String, V)>, name: &str) -> (place: (usize, bool))
        requires
            ascending(named(entries@)),
        ensures
            place.0 <= entries@.len(),
            place.1 <==> place.0 < entries@.len() && entries@[place.0 as int].0@ == name@,
            forall|i: int| 0 <= i < place.0 ==> name_before(#[trigger] entries@[i].0@, name@),
            place.0 < entries@.len() ==> !name_before(entries@[place.0 as int].0@, name@),
    {
        let mut index: usize = 0;
        while index < entries.len() && comes_before(entries[index].0.as_str(), name)
            invariant
                index <= entries@.len(),
                forall|i: int| 0 <= i < index ==> name_before(#[trigger] entries@[i].0@, name@),
            decreases entries@.len() - index,
        {
            index += 1;
        }
        if index < entries.len() {
            let found = !comes_before(name, entries[index].0.as_str());
            proof {
                name_before_is_total(name@, entries@[index as int].0@);
                name_before_is_irreflexive(name@);
            }
            (index, found)
        } else {
            (index, false)
        }
    }

    /// The value under a name.
    pub fn get(&self, name: &str) -> (value: Option<&V>)
        ensures
            self@.contains_key(name@) ==> value == Some(&self@[name@]),
            !self@.contains_key(name@) ==> value is None,
    {
        proof {
            use_type_invariant(self);
        }
        let (index, found) = Self::place(&self.entries, name);
        let ghost s = named(self.entries@);
        if found {
            proof {
                lemma_name_once(s, index as int);
            }
            Some(&self.entries[index].1)
        } else {
            proof {
                lemma_absent(s, index as int, name@);
            }
            None
        }
    }

    /// Puts a value under a name, in place of the one that was there.
    pub fn insert(&mut self, name: String, value: V)
        ensures
            final(self)@ == old(self)@.insert(name@, value),
    {
        proof {
            use_type_invariant(&*self);
        }
        let mut entries: Vec<(String, V)> = Vec::new();
        std::mem::swap(&mut entries, &mut self.entries);
        let ghost before = named(entries@);
        let ghost key = name@;
        let (index, found) = Self::place(&entries, name.as_str());
        if found {
            entries.set(index, (name, value));
            proof {
                assert(named(entries@) =~= before.update(index as int, (key, value)));
                lemma_replaced(before, index as int, value);
            }
        } else {
            entries.insert(index, (name, value));
            proof {
                assert(named(entries@) =~= before.insert(index as int, (key, value)));
                lemma_absent(before, index as int, key);
                lemma_inserted(before, index as int, key, value);
            }
        }
        self.entries = entries;
    }

    /// Removes the entry under a name and gives its value back.
    pub fn take(&mut self, name: &str) -> (value: Option<V>)
        ensures
            final(self)@ == old(self)@.remove(name@),
            old(self)@.contains_key(name@) ==> value == Some(old(self)@[name@]),
            !old(self)@.contains_key(name@) ==> value is None,
    {
        proof {
            use_type_invariant(&*self);
        }
        let mut entries: Vec<(String, V)> = Vec::new();
        std::mem::swap(&mut entries, &mut self.entries);
        let ghost before = named(entries@);
        let (index, found) = Self::place(&entries, name);
        if found {
            let entry = entries.remove(index);
            proof {
                assert(named(entries@) =~= before.remove(index as int));
                lemma_name_once(before, index as int);
                lemma_removed(before, index as int);
            }
            self.entries = entries;
            Some(entry.1)
        } else {
            proof {
                lemma_absent(before, index as int, name@);
                assert(as_map(before).remove(name@) =~= as_map(before));
            }
            self.entries = entries;
            None
        }
    }
}

/// A name that is not at its place is nowhere.
proof fn lemma_absent<T>(s: Seq<(Seq<char>, T)>, index: int, name: Seq<char>)
    requires
        ascending(s),
        0 <= index <= s.len(),
        forall|i: int| 0 <= i < index ==> name_before(#[trigger] s[i].0, name),
        index < s.len() ==> s[index].0 != name && !name_before(s[index].0, name),
    ensures
        !has_name(s, name),
        forall|i: int| index <= i < s.len() ==> name_before(name, #[trigger] s[i].0),
{
    name_before_is_irreflexive(name);
    if index < s.len() {
        name_before_is_total(s[index].0, name);
        assert forall|i: int| index <= i < s.len() implies name_before(name, #[trigger] s[i].0) by {
            if i > index {
                name_before_is_transitive(name, s[index].0, s[i].0);
            }
        }
    }
}

proof fn lemma_replaced<T>(s: Seq<(Seq<char>, T)>, index: int, value: T)
    requires
        ascending(s),
        0 <= index < s.len(),
    ensures
        ascending(s.update(index, (s[index].0, value))),
        as_map(s.update(index, (s[index].0, value))) == as_map(s).insert(s[index].0, value),
{
    let t = s.update(index, (s[index].0, value));
    assert forall|i: int, j: int| 0 <= i < j < t.len() implies name_before(
        #[trigger] t[i].0,
        #[trigger] t[j].0,
    ) by {
        assert(s[i].0 == t[i].0 && s[j].0 == t[j].0);
    }
    assert forall|name: Seq<char>| #[trigger] has_name(t, name) == (has_name(s, name)) by {
        if has_name(s, name) {
            let i = position_of(s, name);
            assert(t[i].0 == name);
        }
        if has_name(t, name) {
            let i = position_of(t, name);
            assert(s[i].0 == name);
        }
    }
    lemma_name_once(s, index);
    lemma_name_once(t, index);
    assert forall|name: Seq<char>| as_map(t).contains_key(name) implies #[trigger] as_map(t)[name]
        == as_map(s).insert(s[index].0, value)[name] by {
        let i = position_of(t, name);
        assert(t[i].0 == name);
        lemma_name_once(t, i);
        lemma_name_once(s, i);
    }
    assert(as_map(t) =~= as_map(s).insert(s[index].0, value));
}

proof fn lemma_inserted<T>(s: Seq<(Seq<char>, T)>, index: int, name: Seq<char>, value: T)
    requires
        ascending(s),
        0 <= index <= s.len(),
        forall|i: int| 0 <= i < index ==> name_before(#[trigger] s[i].0, name),
        forall|i: int| index <= i < s.len() ==> name_before(name, #[trigger] s[i].0),
    ensures
        ascending(s.insert(index, (name, value))),
        as_map(s.insert(index, (name, value))) == as_map(s).insert(name, value),
{
    let t = s.insert(index, (name, value));
    assert forall|i: int, j: int| 0 <= i < j < t.len() implies name_before(
        #[trigger] t[i].0,
        #[trigger] t[j].0,
    ) by {
        let si = if i < index { i } else { i - 1 };
        let sj = if j < index { j } else { j - 1 };
        if i != index {
            assert(t[i] == s[si]);
        }
        if j != index {
            assert(t[j] == s[sj]);
        }
    }
    lemma_name_once(t, index);
    assert forall|other: Seq<char>| #[trigger]
        has_name(t, other) == (has_name(s, other) || other == name) by {
        if has_name(s, other) {
            let i = position_of(s, other);
            assert(s[i].0 == other);
            if i < index {
                assert(t[i].0 == other);
            } else {
                assert(t[i + 1].0 == other);
            }
        }
        if has_name(t, other) && other != name {
            let i = position_of(t, other);
            assert(t[i].0 == other);
            if i < index {
                assert(s[i].0 == other);
            } else {
                assert(s[i - 1].0 == other);
            }
        }
    }
    assert forall|other: Seq<char>| as_map(t).contains_key(other) implies #[trigger] as_map(t)[other]
        == as_map(s).insert(name, value)[other] by {
        let i = position_of(t, other);
        assert(t[i].0 == other);
        lemma_name_once(t, i);
        if i < index {
            assert(s[i] == t[i]);
            lemma_name_once(s, i);
            name_before_is_irreflexive(name);
        } else if i > index {
            assert(s[i - 1] == t[i]);
            lemma_name_once(s, i - 1);
            name_before_is_irreflexive(name);
        }
    }
    assert(as_map(t) =~= as_map(s).insert(name, value));
}

proof fn lemma_removed<T>(s: Seq<(Seq<char>, T)>, index: int)
    requires
        ascending(s),
        0 <= index < s.len(),
    ensures
        ascending(s.remove(index)),
        as_map(s.remove(index)) == as_map(s).remove(s[index].0),
{
    let t = s.remove(index);
    let name = s[index].0;
    assert forall|i: int, j: int| 0 <= i < j < t.len() implies name_before(
        #[trigger] t[i].0,
        #[trigger] t[j].0,
    ) by {
        let si = if i < index { i } else { i + 1 };
        let sj = if j < index { j } else { j + 1 };
        assert(t[i] == s[si] && t[j] == s[sj]);
    }
    assert forall|other: Seq<char>| #[trigger]
        has_name(t, other) == (has_name(s, other) && other != name) by {
        if has_name(s, other) && other != name {
            let i = position_of(s, other);
            assert(s[i].0 == other);
            if i < index {
                assert(t[i].0 == other);
            } else {
                assert(t[i - 1].0 == other);
            }
        }
        if has_name(t, other) {
            let i = position_of(t, other);
            assert(t[i].0 == other);
            let si = if i < index { i } else { i + 1 };
            assert(s[si] == t[i]);
            lemma_name_once(s, si);
            lemma_name_once(s, index);
        }
    }
    assert forall|other: Seq<char>| as_map(t).contains_key(other) implies #[trigger] as_map(t)[other]
        == as_map(s).remove(name)[other] by {
        let i = position_of(t, other);
        assert(t[i].0 == other);
        lemma_name_once(t, i);
        let si = if i < index { i } else { i + 1 };
        assert(s[si] == t[i]);
        lemma_name_once(s, si);
        assert(has_name(t, other));
    }
    assert(as_map(t) =~= as_map(s).remove(name));
}

} // verus!
