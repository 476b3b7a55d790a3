//! What a bounded listing shows of a store.
use vstd::prelude::*;

use crate::equality::Same;
use crate::table::{
    at_most, first_kept, is_ordered, is_walk, lemma_filter_next, lemma_mapped_is_entry,
    lemma_walk_meets_every_value, Named,
};

verus! {

/// A listing shows the stored values of `names`, in the order of their keys, and no more than
/// `limit` of them.
pub open spec fn shows<K: Named, V: Same>(
    listed: Seq<V>,
    names: Seq<K::Name>,
    values: Map<K::Name, V>,
    limit: nat,
) -> bool {
    &&& names.len() == listed.len() <= limit
    &&& forall|i: int|
        0 <= i < names.len() ==> values.contains_key(#[trigger] names[i]) && listed[i].same(
            values[names[i]],
        )
    &&& forall|i: int, j: int|
        0 <= i < j < names.len() ==> K::precedes(#[trigger] names[i], #[trigger] names[j])
}

/// A name is listed, or the listing is full of names that come before it.
pub open spec fn is_reached<K: Named>(names: Seq<K::Name>, name: K::Name, limit: nat) -> bool {
    ||| names.contains(name)
    ||| names.len() == limit && forall|i: int|
        0 <= i < names.len() ==> K::precedes(#[trigger] names[i], name)
}

spec fn is_kept<K: Named, V>(
    entries: Seq<(K, V)>,
    keep: spec_fn((K, V)) -> bool,
    count: int,
    item: (K, V),
) -> bool {
    keep(item) && exists|at: int| 0 <= at < count && #[trigger] entries[at] == item
}

proof fn lemma_filter_keeps_order<K: Named, V>(
    entries: Seq<(K, V)>,
    keep: spec_fn((K, V)) -> bool,
    count: int,
)
    requires
        is_ordered(entries),
        0 <= count <= entries.len(),
    ensures
        is_ordered(entries.take(count).filter(keep)),
        forall|i: int|
            0 <= i < entries.take(count).filter(keep).len() ==> is_kept(
                entries,
                keep,
                count,
                #[trigger] entries.take(count).filter(keep)[i],
            ),
        forall|at: int|
            0 <= at < count && keep(#[trigger] entries[at]) ==> entries.take(count).filter(
                keep,
            ).contains(entries[at]),
    decreases count,
{
    if count == 0 {
        reveal(Seq::filter);
        assert(entries.take(0) =~= Seq::<(K, V)>::empty());
    } else {
        lemma_filter_keeps_order(entries, keep, count - 1);
        lemma_filter_next(entries, keep, count - 1);
        let before = entries.take(count - 1).filter(keep);
        let after = entries.take(count).filter(keep);
        assert forall|i: int| 0 <= i < after.len() implies is_kept(
            entries,
            keep,
            count,
            #[trigger] after[i],
        ) by {
            if i < before.len() {
                assert(after[i] == before[i]);
                assert(is_kept(entries, keep, count - 1, before[i]));
            } else {
                assert(entries[count - 1] == after[i]);
            }
        }
        if keep(entries[count - 1]) {
            assert(after == before.push(entries[count - 1]));
            assert forall|i: int, j: int| 0 <= i < j < after.len() implies K::precedes(
                (#[trigger] after[i]).0.name(),
                (#[trigger] after[j]).0.name(),
            ) by {
                if j == after.len() - 1 {
                    assert(after[i] == before[i]);
                    assert(is_kept(entries, keep, count - 1, before[i]));
                    let at = choose|at: int|
                        0 <= at < count - 1 && #[trigger] entries[at] == before[i];
                    assert(entries[at].0.name() == after[i].0.name());
                } else {
                    assert(after[i] == before[i] && after[j] == before[j]);
                }
            }
            assert forall|at: int|
                0 <= at < count && keep(#[trigger] entries[at]) implies after.contains(
                entries[at],
            ) by {
                if at == count - 1 {
                    assert(after[after.len() - 1] == entries[at]);
                } else {
                    let i = choose|i: int| 0 <= i < before.len() && before[i] == entries[at];
                    assert(after[i] == entries[at]);
                }
            }
        }
    }
}

/// The first values that are kept, of a walk through a store, are the first ones that are wanted.
pub(crate) proof fn lemma_kept_names<K: Named, V>(
    entries: Seq<(K, V)>,
    values: Map<K::Name, V>,
    keep: spec_fn((K, V)) -> bool,
    wanted: spec_fn(K::Name, V) -> bool,
    limit: nat,
) -> (names: Seq<K::Name>)
    requires
        is_walk(entries, values),
        forall|entry: (K, V)| #[trigger] keep(entry) == wanted(entry.0.name(), entry.1),
    ensures
        names.len() == first_kept(entries, keep, limit).len() <= limit,
        forall|i: int|
            0 <= i < names.len() ==> {
                &&& values.contains_key(#[trigger] names[i])
                &&& first_kept(entries, keep, limit)[i] == values[names[i]]
                &&& wanted(names[i], values[names[i]])
            },
        forall|i: int, j: int|
            0 <= i < j < names.len() ==> K::precedes(#[trigger] names[i], #[trigger] names[j]),
        forall|name: K::Name| #[trigger]
            values.contains_key(name) && wanted(name, values[name]) ==> is_reached::<K>(
                names,
                name,
                limit,
            ),
{
    let kept = entries.filter(keep);
    let shown = at_most(kept, limit);
    let names = shown.map_values(|entry: (K, V)| entry.0.name());
    assert(entries.take(entries.len() as int) =~= entries);
    lemma_filter_keeps_order(entries, keep, entries.len() as int);
    lemma_walk_meets_every_value(entries, values);
    assert forall|i: int| 0 <= i < names.len() implies values.contains_key(#[trigger] names[i])
        && first_kept(entries, keep, limit)[i] == values[names[i]] && wanted(
        names[i],
        values[names[i]],
    ) by {
        assert(shown[i] == kept[i]);
        assert(is_kept(entries, keep, entries.len() as int, kept[i]));
        let at = choose|at: int| 0 <= at < entries.len() && #[trigger] entries[at] == kept[i];
        assert(names[i] == entries[at].0.name());
    }
    assert forall|i: int, j: int| 0 <= i < j < names.len() implies K::precedes(
        #[trigger] names[i],
        #[trigger] names[j],
    ) by {
        assert(shown[i] == kept[i] && shown[j] == kept[j]);
    }
    assert forall|name: K::Name| #[trigger]
        values.contains_key(name) && wanted(name, values[name]) implies is_reached::<K>(
        names,
        name,
        limit,
    ) by {
        let at = lemma_mapped_is_entry(entries, name);
        assert(keep(entries[at]));
        let i = choose|i: int| 0 <= i < kept.len() && kept[i] == entries[at];
        if i < shown.len() {
            assert(names[i] == name);
        } else {
            assert forall|j: int| 0 <= j < names.len() implies K::precedes(
                #[trigger] names[j],
                name,
            ) by {
                assert(shown[j] == kept[j]);
            }
        }
    }
    names
}

/// A listing of the first values that are kept shows the first ones that are wanted.
pub(crate) proof fn lemma_listing<K: Named, V: Same>(
    entries: Seq<(K, V)>,
    values: Map<K::Name, V>,
    keep: spec_fn((K, V)) -> bool,
    wanted: spec_fn(K::Name, V) -> bool,
    limit: nat,
    listed: Seq<V>,
) -> (names: Seq<K::Name>)
    requires
        is_walk(entries, values),
        forall|entry: (K, V)| #[trigger] keep(entry) == wanted(entry.0.name(), entry.1),
        listed.same(first_kept(entries, keep, limit)),
    ensures
        shows::<K, V>(listed, names, values, limit),
        forall|i: int| 0 <= i < names.len() ==> wanted(#[trigger] names[i], values[names[i]]),
        forall|name: K::Name| #[trigger]
            values.contains_key(name) && wanted(name, values[name]) ==> is_reached::<K>(
                names,
                name,
                limit,
            ),
{
    let names = lemma_kept_names(entries, values, keep, wanted, limit);
    assert forall|i: int| 0 <= i < names.len() implies values.contains_key(#[trigger] names[i])
        && listed[i].same(values[names[i]]) by {
        assert(listed[i].same(first_kept(entries, keep, limit)[i]));
    }
    names
}

} // verus!
