//! Ordered tables: entries sorted by key, at most one per key.
use vstd::prelude::*;

use crate::digest::{lemma_digest_is_its_bytes, ContentDigest};
use crate::equality::Same;
use crate::identifier::Identifier;
use crate::text::{
    bytes_before, bytes_is_before, lemma_bytes_before_irreflexive, lemma_bytes_before_total,
    lemma_bytes_before_transitive, lemma_text_before_irreflexive, lemma_text_before_total,
    lemma_text_before_transitive, text_before,
};

verus! {

/// A key that goes by a name, with a total order of the names. Two keys of one name are the same
/// key.
pub trait Named: Sized {
    type Name;

    spec fn name(self) -> Self::Name;

    spec fn precedes(left: Self::Name, right: Self::Name) -> bool;

    proof fn lemma_irreflexive(name: Self::Name)
        ensures
            !Self::precedes(name, name),
    ;

    proof fn lemma_transitive(first: Self::Name, second: Self::Name, third: Self::Name)
        requires
            Self::precedes(first, second),
            Self::precedes(second, third),
        ensures
            Self::precedes(first, third),
    ;

    proof fn lemma_total(left: Self::Name, right: Self::Name)
        ensures
            Self::precedes(left, right) || Self::precedes(right, left) || left == right,
    ;
}

/// A key that can be compared.
pub trait OrderedKey: Named {
    fn is_before(&self, other: &Self) -> (before: bool)
        ensures
            before == Self::precedes(self.name(), other.name()),
    ;

    fn is_same(&self, other: &Self) -> (equal: bool)
        ensures
            equal == (self.name() == other.name()),
    ;
}

impl Named for Identifier {
    type Name = Seq<char>;

    open spec fn name(self) -> Seq<char> {
        self@
    }

    open spec fn precedes(left: Seq<char>, right: Seq<char>) -> bool {
        text_before(left, right)
    }

    proof fn lemma_irreflexive(name: Seq<char>) {
        lemma_text_before_irreflexive(name);
    }

    proof fn lemma_transitive(first: Seq<char>, second: Seq<char>, third: Seq<char>) {
        lemma_text_before_transitive(first, second, third);
    }

    proof fn lemma_total(left: Seq<char>, right: Seq<char>) {
        lemma_text_before_total(left, right);
    }
}

impl OrderedKey for Identifier {
    fn is_before(&self, other: &Self) -> (before: bool) {
        Identifier::is_before(self, other)
    }

    fn is_same(&self, other: &Self) -> (equal: bool) {
        *self == *other
    }
}

impl Named for ContentDigest {
    type Name = Seq<u8>;

    open spec fn name(self) -> Seq<u8> {
        self@
    }

    open spec fn precedes(left: Seq<u8>, right: Seq<u8>) -> bool {
        bytes_before(left, right)
    }

    proof fn lemma_irreflexive(name: Seq<u8>) {
        lemma_bytes_before_irreflexive(name);
    }

    proof fn lemma_transitive(first: Seq<u8>, second: Seq<u8>, third: Seq<u8>) {
        lemma_bytes_before_transitive(first, second, third);
    }

    proof fn lemma_total(left: Seq<u8>, right: Seq<u8>) {
        lemma_bytes_before_total(left, right);
    }
}

impl OrderedKey for ContentDigest {
    fn is_before(&self, other: &Self) -> (before: bool) {
        bytes_is_before(self.as_bytes().as_slice(), other.as_bytes().as_slice())
    }

    fn is_same(&self, other: &Self) -> (equal: bool) {
        broadcast use lemma_digest_is_its_bytes;
        *self == *other
    }
}

impl Named for u32 {
    type Name = u32;

    open spec fn name(self) -> u32 {
        self
    }

    open spec fn precedes(left: u32, right: u32) -> bool {
        left < right
    }

    proof fn lemma_irreflexive(name: u32) {
    }

    proof fn lemma_transitive(first: u32, second: u32, third: u32) {
    }

    proof fn lemma_total(left: u32, right: u32) {
    }
}

impl OrderedKey for u32 {
    fn is_before(&self, other: &Self) -> (before: bool) {
        *self < *other
    }

    fn is_same(&self, other: &Self) -> (equal: bool) {
        *self == *other
    }
}

impl<A: Named, B: Named> Named for (A, B) {
    type Name = (A::Name, B::Name);

    open spec fn name(self) -> (A::Name, B::Name) {
        (self.0.name(), self.1.name())
    }

    open spec fn precedes(left: (A::Name, B::Name), right: (A::Name, B::Name)) -> bool {
        A::precedes(left.0, right.0) || (left.0 == right.0 && B::precedes(left.1, right.1))
    }

    proof fn lemma_irreflexive(name: (A::Name, B::Name)) {
        A::lemma_irreflexive(name.0);
        B::lemma_irreflexive(name.1);
    }

    proof fn lemma_transitive(
        first: (A::Name, B::Name),
        second: (A::Name, B::Name),
        third: (A::Name, B::Name),
    ) {
        if A::precedes(first.0, second.0) && A::precedes(second.0, third.0) {
            A::lemma_transitive(first.0, second.0, third.0);
        }
        if B::precedes(first.1, second.1) && B::precedes(second.1, third.1) {
            B::lemma_transitive(first.1, second.1, third.1);
        }
    }

    proof fn lemma_total(left: (A::Name, B::Name), right: (A::Name, B::Name)) {
        A::lemma_total(left.0, right.0);
        B::lemma_total(left.1, right.1);
    }
}

impl<A: OrderedKey, B: OrderedKey> OrderedKey for (A, B) {
    fn is_before(&self, other: &Self) -> (before: bool) {
        self.0.is_before(&other.0) || (self.0.is_same(&other.0) && self.1.is_before(&other.1))
    }

    fn is_same(&self, other: &Self) -> (equal: bool) {
        self.0.is_same(&other.0) && self.1.is_same(&other.1)
    }
}

/// A value that can be copied.
pub trait Replicate: Same {
    fn replica(&self) -> (copy: Self)
        ensures
            copy.same(*self),
    ;
}

/// Entries in strictly ascending key order.
pub open spec fn is_ordered<K: Named, V>(entries: Seq<(K, V)>) -> bool {
    forall|i: int, j: int|
        0 <= i < j < entries.len() ==> K::precedes(
            (#[trigger] entries[i]).0.name(),
            (#[trigger] entries[j]).0.name(),
        )
}

/// The entry at `index` goes by `name`.
pub open spec fn is_entry<K: Named, V>(
    entries: Seq<(K, V)>,
    name: K::Name,
    index: int,
) -> bool {
    0 <= index < entries.len() && entries[index].0.name() == name
}

/// The values of a list of entries by name.
pub open spec fn mapped<K: Named, V>(entries: Seq<(K, V)>) -> Map<K::Name, V> {
    Map::new(
        |name: K::Name| exists|index: int| is_entry(entries, name, index),
        |name: K::Name| entries[choose|index: int| is_entry(entries, name, index)].1,
    )
}

/// The entries that a walk through named values meets: in key order, each value under its name.
pub open spec fn is_walk<K: Named, V>(entries: Seq<(K, V)>, values: Map<K::Name, V>) -> bool {
    &&& is_ordered(entries)
    &&& mapped(entries) == values
}

/// A map from keys to values that walks in key order.
pub struct Table<K: Named, V> {
    entries: Vec<(K, V)>,
}

impl<K: Named, V> View for Table<K, V> {
    type V = Map<K::Name, V>;

    open spec fn view(&self) -> Map<K::Name, V> {
        mapped(self.entries())
    }
}

/// In ordered entries a name has one place only.
proof fn lemma_place_is_unique<K: Named, V>(
    entries: Seq<(K, V)>,
    name: K::Name,
    left: int,
    right: int,
)
    requires
        is_ordered(entries),
        is_entry(entries, name, left),
        is_entry(entries, name, right),
    ensures
        left == right,
{
    K::lemma_irreflexive(name);
}

/// Two entries of an ordered list have different names.
pub proof fn lemma_names_differ<K: Named, V>(entries: Seq<(K, V)>, left: int, right: int)
    requires
        is_ordered(entries),
        0 <= left < right < entries.len(),
    ensures
        entries[left].0.name() != entries[right].0.name(),
{
    K::lemma_irreflexive(entries[left].0.name());
}

/// Every entry of an ordered list is what the map gives for its name.
pub proof fn lemma_entry_is_mapped<K: Named, V>(entries: Seq<(K, V)>, index: int)
    requires
        is_ordered(entries),
        0 <= index < entries.len(),
    ensures
        mapped(entries).contains_key(entries[index].0.name()),
        mapped(entries)[entries[index].0.name()] == entries[index].1,
{
    let name = entries[index].0.name();
    assert(is_entry(entries, name, index));
    let chosen = choose|i: int| is_entry(entries, name, i);
    lemma_place_is_unique(entries, name, index, chosen);
}

/// Every name in the map has an entry.
pub proof fn lemma_mapped_is_entry<K: Named, V>(
    entries: Seq<(K, V)>,
    name: K::Name,
) -> (index: int)
    requires
        is_ordered(entries),
        mapped(entries).contains_key(name),
    ensures
        is_entry(entries, name, index),
        mapped(entries)[name] == entries[index].1,
{
    let chosen = choose|i: int| is_entry(entries, name, i);
    lemma_entry_is_mapped(entries, chosen);
    chosen
}

/// A walk meets every value, and nothing else.
pub proof fn lemma_walk_meets_every_value<K: Named, V>(
    entries: Seq<(K, V)>,
    values: Map<K::Name, V>,
)
    requires
        is_walk(entries, values),
    ensures
        forall|i: int|
            0 <= i < entries.len() ==> values.contains_key((#[trigger] entries[i]).0.name())
                && values[entries[i].0.name()] == entries[i].1,
        forall|name: K::Name| #[trigger]
            values.contains_key(name) ==> exists|i: int| is_entry(entries, name, i),
{
    assert forall|i: int| 0 <= i < entries.len() implies values.contains_key(
        (#[trigger] entries[i]).0.name(),
    ) && values[entries[i].0.name()] == entries[i].1 by {
        lemma_entry_is_mapped(entries, i);
    }
}

proof fn lemma_insert<K: Named, V>(entries: Seq<(K, V)>, position: int, entry: (K, V))
    requires
        is_ordered(entries),
        0 <= position <= entries.len(),
        forall|i: int| 0 <= i < position ==> K::precedes((#[trigger] entries[i]).0.name(), entry.0.name()),
        forall|i: int|
            position <= i < entries.len() ==> K::precedes(
                entry.0.name(),
                (#[trigger] entries[i]).0.name(),
            ),
    ensures
        is_ordered(entries.insert(position, entry)),
        mapped(entries.insert(position, entry)) == mapped(entries).insert(entry.0.name(), entry.1),
{
    let after = entries.insert(position, entry);
    assert forall|i: int, j: int| 0 <= i < j < after.len() implies K::precedes(
        (#[trigger] after[i]).0.name(),
        (#[trigger] after[j]).0.name(),
    ) by {
        let before_i = if i < position { i } else { i - 1 };
        let before_j = if j < position { j } else { j - 1 };
        if i != position && j != position {
            assert(after[i] == entries[before_i]);
            assert(after[j] == entries[before_j]);
        } else if i == position {
            assert(after[j] == entries[before_j]);
        } else {
            assert(after[i] == entries[before_i]);
        }
    }
    let left = mapped(after);
    let right = mapped(entries).insert(entry.0.name(), entry.1);
    assert forall|name: K::Name| #[trigger] left.dom().contains(name) implies right.dom().contains(
        name,
    ) && left[name] == right[name] by {
        let index = lemma_mapped_is_entry(after, name);
        K::lemma_irreflexive(name);
        if index < position {
            assert(after[index] == entries[index]);
            lemma_entry_is_mapped(entries, index);
        } else if index > position {
            assert(after[index] == entries[index - 1]);
            lemma_entry_is_mapped(entries, index - 1);
        }
    }
    assert forall|name: K::Name| #[trigger] right.dom().contains(name) implies left.dom().contains(
        name,
    ) by {
        if name == entry.0.name() {
            assert(after[position] == entry);
            lemma_entry_is_mapped(after, position);
        } else {
            let index = lemma_mapped_is_entry(entries, name);
            let moved = if index < position { index } else { index + 1 };
            assert(after[moved] == entries[index]);
            lemma_entry_is_mapped(after, moved);
        }
    }
    assert(left.dom() =~= right.dom());
    assert(left =~= right);
}

/// One more entry of an ordered list binds one more name.
pub proof fn lemma_mapped_next<K: Named, V>(entries: Seq<(K, V)>, index: int)
    requires
        is_ordered(entries),
        0 <= index < entries.len(),
    ensures
        mapped(entries.take(index + 1)) == mapped(entries.take(index)).insert(
            entries[index].0.name(),
            entries[index].1,
        ),
{
    let shorter = entries.take(index);
    assert forall|i: int, j: int| 0 <= i < j < shorter.len() implies K::precedes(
        (#[trigger] shorter[i]).0.name(),
        (#[trigger] shorter[j]).0.name(),
    ) by {
        assert(shorter[i] == entries[i] && shorter[j] == entries[j]);
    }
    assert forall|i: int| 0 <= i < index implies K::precedes(
        (#[trigger] shorter[i]).0.name(),
        entries[index].0.name(),
    ) by {
        assert(shorter[i] == entries[i]);
    }
    lemma_insert(shorter, index, entries[index]);
    assert(shorter.insert(index, entries[index]) =~= entries.take(index + 1));
}

proof fn lemma_update<K: Named, V>(entries: Seq<(K, V)>, position: int, entry: (K, V))
    requires
        is_ordered(entries),
        is_entry(entries, entry.0.name(), position),
    ensures
        is_ordered(entries.update(position, entry)),
        mapped(entries.update(position, entry)) == mapped(entries).insert(entry.0.name(), entry.1),
{
    let after = entries.update(position, entry);
    assert forall|i: int, j: int| 0 <= i < j < after.len() implies K::precedes(
        (#[trigger] after[i]).0.name(),
        (#[trigger] after[j]).0.name(),
    ) by {
        assert(after[i].0.name() == entries[i].0.name());
        assert(after[j].0.name() == entries[j].0.name());
    }
    let left = mapped(after);
    let right = mapped(entries).insert(entry.0.name(), entry.1);
    assert forall|name: K::Name| #[trigger] left.dom().contains(name) implies right.dom().contains(
        name,
    ) && left[name] == right[name] by {
        let index = lemma_mapped_is_entry(after, name);
        if index != position {
            assert(after[index] == entries[index]);
            lemma_entry_is_mapped(entries, index);
            if name == entry.0.name() {
                lemma_place_is_unique(entries, name, index, position);
            }
        }
    }
    assert forall|name: K::Name| #[trigger] right.dom().contains(name) implies left.dom().contains(
        name,
    ) by {
        if name == entry.0.name() {
            lemma_entry_is_mapped(after, position);
        } else {
            let index = lemma_mapped_is_entry(entries, name);
            assert(after[index] == entries[index]);
            lemma_entry_is_mapped(after, index);
        }
    }
    assert(left.dom() =~= right.dom());
    assert(left =~= right);
}

proof fn lemma_remove<K: Named, V>(entries: Seq<(K, V)>, position: int)
    requires
        is_ordered(entries),
        0 <= position < entries.len(),
    ensures
        is_ordered(entries.remove(position)),
        mapped(entries.remove(position)) == mapped(entries).remove(entries[position].0.name()),
{
    let after = entries.remove(position);
    let gone = entries[position].0.name();
    assert forall|i: int, j: int| 0 <= i < j < after.len() implies K::precedes(
        (#[trigger] after[i]).0.name(),
        (#[trigger] after[j]).0.name(),
    ) by {
        let before_i = if i < position { i } else { i + 1 };
        let before_j = if j < position { j } else { j + 1 };
        assert(after[i] == entries[before_i]);
        assert(after[j] == entries[before_j]);
    }
    let left = mapped(after);
    let right = mapped(entries).remove(gone);
    assert forall|name: K::Name| #[trigger] left.dom().contains(name) implies right.dom().contains(
        name,
    ) && left[name] == right[name] by {
        let index = lemma_mapped_is_entry(after, name);
        let before = if index < position { index } else { index + 1 };
        assert(after[index] == entries[before]);
        lemma_entry_is_mapped(entries, before);
        if name == gone {
            lemma_place_is_unique(entries, name, before, position);
        }
    }
    assert forall|name: K::Name| #[trigger] right.dom().contains(name) implies left.dom().contains(
        name,
    ) by {
        let index = lemma_mapped_is_entry(entries, name);
        let moved = if index < position { index } else { index - 1 };
        assert(after[moved] == entries[index]);
        lemma_entry_is_mapped(after, moved);
    }
    assert(left.dom() =~= right.dom());
    assert(left =~= right);
}

impl<K: Named, V> Table<K, V> {
    /// The entries in key order.
    pub closed spec fn entries(self) -> Seq<(K, V)> {
        self.entries@
    }

    pub open spec fn well_formed(self) -> bool {
        is_ordered(self.entries())
    }
}

impl<K: OrderedKey, V> Table<K, V> {
    #[must_use]
    pub fn new() -> (table: Self)
        ensures
            table.well_formed(),
            table@ == Map::<K::Name, V>::empty(),
            table.entries().len() == 0,
    {
        let table = Self { entries: Vec::new() };
        assert(table@ =~= Map::<K::Name, V>::empty());
        table
    }

    #[must_use]
    pub fn len(&self) -> (count: usize)
        ensures
            count == self.entries().len(),
    {
        self.entries.len()
    }

    /// The entry at a place in key order.
    #[must_use]
    pub fn entry_at(&self, index: usize) -> (entry: &(K, V))
        requires
            index < self.entries().len(),
        ensures
            *entry == self.entries()[index as int],
    {
        &self.entries[index]
    }

    /// The place of the first entry that does not come before a key.
    fn position(&self, key: &K) -> (position: usize)
        requires
            self.well_formed(),
        ensures
            position <= self.entries().len(),
            forall|i: int|
                0 <= i < position ==> K::precedes((#[trigger] self.entries()[i]).0.name(), key.name()),
            position < self.entries().len() ==> !K::precedes(
                self.entries()[position as int].0.name(),
                key.name(),
            ),
    {
        let mut position: usize = 0;
        while position < self.entries.len() && self.entries[position].0.is_before(key)
            invariant
                position <= self.entries@.len(),
                forall|i: int|
                    0 <= i < position ==> K::precedes(
                        (#[trigger] self.entries@[i]).0.name(),
                        key.name(),
                    ),
            decreases self.entries.len() - position,
        {
            position += 1;
        }
        position
    }

    /// The place of a key, if it has one.
    #[must_use]
    pub fn find(&self, key: &K) -> (place: Option<usize>)
        requires
            self.well_formed(),
        ensures
            place is Some <==> self@.contains_key(key.name()),
            place matches Some(index) ==> {
                &&& is_entry(self.entries(), key.name(), index as int)
                &&& self@[key.name()] == self.entries()[index as int].1
            },
    {
        let position = self.position(key);
        if position < self.entries.len() && self.entries[position].0.is_same(key) {
            proof {
                lemma_entry_is_mapped(self.entries@, position as int);
            }
            return Some(position);
        }
        proof {
            if self@.contains_key(key.name()) {
                let index = lemma_mapped_is_entry(self.entries@, key.name());
                K::lemma_irreflexive(key.name());
                if index > position {
                    let at = self.entries@[position as int].0.name();
                    assert(K::precedes(at, key.name()));
                }
                assert(false);
            }
        }
        None
    }

    #[must_use]
    pub fn contains(&self, key: &K) -> (present: bool)
        requires
            self.well_formed(),
        ensures
            present == self@.contains_key(key.name()),
    {
        self.find(key).is_some()
    }

    #[must_use]
    pub fn get(&self, key: &K) -> (value: Option<&V>)
        requires
            self.well_formed(),
        ensures
            value is Some <==> self@.contains_key(key.name()),
            value matches Some(found) ==> *found == self@[key.name()],
    {
        match self.find(key) {
            Some(index) => Some(&self.entries[index].1),
            None => None,
        }
    }

    /// Binds a key to a value, in place of what it was bound to.
    pub fn insert(&mut self, key: K, value: V)
        requires
            old(self).well_formed(),
        ensures
            final(self).well_formed(),
            final(self)@ == old(self)@.insert(key.name(), value),
    {
        let position = self.position(&key);
        if position < self.entries.len() && self.entries[position].0.is_same(&key) {
            proof {
                lemma_update(self.entries@, position as int, (key, value));
            }
            self.entries[position] = (key, value);
            return ;
        }
        proof {
            assert forall|i: int| position <= i < self.entries@.len() implies K::precedes(
                key.name(),
                (#[trigger] self.entries@[i]).0.name(),
            ) by {
                let at = self.entries@[position as int].0.name();
                K::lemma_total(at, key.name());
                if i > position {
                    K::lemma_transitive(key.name(), at, self.entries@[i].0.name());
                }
            }
            lemma_insert(self.entries@, position as int, (key, value));
        }
        self.entries.insert(position, (key, value));
    }

    /// Binds a key that comes after every other.
    pub fn append(&mut self, key: K, value: V)
        requires
            old(self).well_formed(),
            forall|i: int|
                0 <= i < old(self).entries().len() ==> K::precedes(
                    (#[trigger] old(self).entries()[i]).0.name(),
                    key.name(),
                ),
        ensures
            final(self).well_formed(),
            final(self).entries() == old(self).entries().push((key, value)),
    {
        self.entries.push((key, value));
    }

    /// Unbinds a key and gives the value that it was bound to.
    pub fn take(&mut self, key: &K) -> (taken: Option<V>)
        requires
            old(self).well_formed(),
        ensures
            final(self).well_formed(),
            final(self)@ == old(self)@.remove(key.name()),
            taken is Some <==> old(self)@.contains_key(key.name()),
            taken matches Some(value) ==> value == old(self)@[key.name()],
    {
        match self.find(key) {
            Some(index) => {
                proof {
                    lemma_remove(self.entries@, index as int);
                }
                let entry = self.entries.remove(index);
                Some(entry.1)
            },
            None => {
                assert(self@ =~= self@.remove(key.name()));
                None
            },
        }
    }

    /// Unbinds a key.
    pub fn remove(&mut self, key: &K)
        requires
            old(self).well_formed(),
        ensures
            final(self).well_formed(),
            final(self)@ == old(self)@.remove(key.name()),
    {
        let _ = self.take(key);
    }
}

/// At most the first `limit` items.
pub open spec fn at_most<T>(items: Seq<T>, limit: nat) -> Seq<T> {
    if items.len() <= limit {
        items
    } else {
        items.take(limit as int)
    }
}

/// The values of the first `limit` entries that are kept, in key order.
pub open spec fn first_kept<K: Named, V>(
    entries: Seq<(K, V)>,
    keep: spec_fn((K, V)) -> bool,
    limit: nat,
) -> Seq<V> {
    at_most(entries.filter(keep), limit).map_values(|entry: (K, V)| entry.1)
}

/// Filtering one more item appends it where it is kept.
pub proof fn lemma_filter_next<T>(items: Seq<T>, keep: spec_fn(T) -> bool, index: int)
    requires
        0 <= index < items.len(),
    ensures
        items.take(index + 1).filter(keep) == if keep(items[index]) {
            items.take(index).filter(keep).push(items[index])
        } else {
            items.take(index).filter(keep)
        },
{
    reveal(Seq::filter);
    assert(items.take(index + 1).drop_last() =~= items.take(index));
}

/// A prefix keeps no more than the whole, and in the same places.
pub proof fn lemma_filter_prefix<T>(items: Seq<T>, keep: spec_fn(T) -> bool, index: int)
    requires
        0 <= index <= items.len(),
    ensures
        items.take(index).filter(keep).len() <= items.filter(keep).len(),
        items.take(index).filter(keep) == items.filter(keep).take(
            items.take(index).filter(keep).len() as int,
        ),
    decreases items.len() - index,
{
    if index == items.len() {
        assert(items.take(index) =~= items);
        assert(items.filter(keep).take(items.filter(keep).len() as int) =~= items.filter(keep));
    } else {
        lemma_filter_next(items, keep, index);
        lemma_filter_prefix(items, keep, index + 1);
        let shorter = items.take(index).filter(keep);
        let longer = items.take(index + 1).filter(keep);
        assert(shorter =~= longer.take(shorter.len() as int));
        assert(shorter =~= items.filter(keep).take(shorter.len() as int));
    }
}

/// The first `limit` values that `keep` accepts, each as `project` gives it, in key order.
pub(crate) fn select_as<K: OrderedKey, V, U: Same, F: Fn(&K, &V) -> bool, G: Fn(&V) -> U>(
    table: &Table<K, V>,
    keep: F,
    Ghost(kept): Ghost<spec_fn((K, V)) -> bool>,
    project: G,
    Ghost(image): Ghost<spec_fn(V) -> U>,
    limit: usize,
) -> (chosen: Vec<U>)
    requires
        forall|key: &K, value: &V| #[trigger] call_requires(keep, (key, value)),
        forall|key: &K, value: &V, verdict: bool| #[trigger]
            call_ensures(keep, (key, value), verdict) ==> verdict == kept((*key, *value)),
        forall|value: &V| #[trigger] call_requires(project, (value,)),
        forall|value: &V, made: U| #[trigger]
            call_ensures(project, (value,), made) ==> made.same(image(*value)),
    ensures
        chosen@.same(first_kept(table.entries(), kept, limit as nat).map_values(image)),
{
    let ghost entries = table.entries();
    let mut chosen: Vec<U> = Vec::new();
    let mut index: usize = 0;
    proof {
        assert(entries.take(0) =~= Seq::<(K, V)>::empty());
        reveal(Seq::filter);
    }
    while index < table.len() && chosen.len() < limit
        invariant
            index <= entries.len(),
            entries == table.entries(),
            chosen@.len() <= limit,
            forall|key: &K, value: &V| #[trigger] call_requires(keep, (key, value)),
            forall|key: &K, value: &V, verdict: bool| #[trigger]
                call_ensures(keep, (key, value), verdict) ==> verdict == kept((*key, *value)),
            forall|value: &V| #[trigger] call_requires(project, (value,)),
            forall|value: &V, made: U| #[trigger]
                call_ensures(project, (value,), made) ==> made.same(image(*value)),
            chosen@.len() == entries.take(index as int).filter(kept).len(),
            forall|i: int|
                0 <= i < chosen@.len() ==> (#[trigger] chosen@[i]).same(
                    image(entries.take(index as int).filter(kept)[i].1),
                ),
        decreases table.entries().len() - index,
    {
        let entry = table.entry_at(index);
        proof {
            lemma_filter_next(entries, kept, index as int);
        }
        if keep(&entry.0, &entry.1) {
            chosen.push(project(&entry.1));
        }
        index += 1;
    }
    proof {
        lemma_filter_prefix(entries, kept, index as int);
        if index == entries.len() {
            assert(entries.take(index as int) =~= entries);
        }
    }
    chosen
}

/// Copies of the first `limit` values that `keep` accepts, in key order.
pub(crate) fn select<K: OrderedKey, V: Replicate, F: Fn(&K, &V) -> bool>(
    table: &Table<K, V>,
    keep: F,
    Ghost(kept): Ghost<spec_fn((K, V)) -> bool>,
    limit: usize,
) -> (chosen: Vec<V>)
    requires
        forall|key: &K, value: &V| #[trigger] call_requires(keep, (key, value)),
        forall|key: &K, value: &V, verdict: bool| #[trigger]
            call_ensures(keep, (key, value), verdict) ==> verdict == kept((*key, *value)),
    ensures
        chosen@.same(first_kept(table.entries(), kept, limit as nat)),
{
    let ghost image: spec_fn(V) -> V = |value: V| value;
    let project = |value: &V| -> (copy: V)
        ensures
            copy.same(*value),
        { value.replica() };
    let chosen = select_as(table, keep, Ghost(kept), project, Ghost(image), limit);
    proof {
        let expected = first_kept(table.entries(), kept, limit as nat);
        assert(expected.map_values(image) =~= expected);
    }
    chosen
}

/// Some value of a map is wanted.
pub open spec fn any_wanted<N, V>(values: Map<N, V>, wanted: spec_fn(V) -> bool) -> bool {
    exists|name: N| #[trigger] values.contains_key(name) && wanted(values[name])
}

/// Tells whether some value is wanted.
pub(crate) fn any_value<K: OrderedKey, V, F: Fn(&V) -> bool>(
    table: &Table<K, V>,
    test: F,
    Ghost(wanted): Ghost<spec_fn(V) -> bool>,
) -> (found: bool)
    requires
        table.well_formed(),
        forall|value: &V| #[trigger] call_requires(test, (value,)),
        forall|value: &V, verdict: bool| #[trigger]
            call_ensures(test, (value,), verdict) ==> verdict == wanted(*value),
    ensures
        found == any_wanted(table@, wanted),
{
    let ghost entries = table.entries();
    let mut index: usize = 0;
    while index < table.len()
        invariant
            entries == table.entries(),
            table.well_formed(),
            index <= entries.len(),
            forall|value: &V| #[trigger] call_requires(test, (value,)),
            forall|value: &V, verdict: bool| #[trigger]
                call_ensures(test, (value,), verdict) ==> verdict == wanted(*value),
            forall|i: int| 0 <= i < index ==> !wanted((#[trigger] entries[i]).1),
        decreases entries.len() - index,
    {
        if test(&table.entry_at(index).1) {
            proof {
                lemma_entry_is_mapped(entries, index as int);
                assert(table@.contains_key(entries[index as int].0.name()));
            }
            return true;
        }
        index += 1;
    }
    proof {
        assert forall|name: K::Name| #[trigger] table@.contains_key(name) implies !wanted(
            table@[name],
        ) by {
            let at = lemma_mapped_is_entry(entries, name);
            assert(!wanted(entries[at].1));
        }
    }
    false
}

} // verus!
