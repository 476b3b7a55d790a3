//! Keyset pages: newest first, then by identity.
use vstd::prelude::*;

use crate::equality::Same;
use crate::error::{fault_of, final_failure, final_fault, CentralErrorCode, CentralResult, Fault};
use crate::table::{
    at_most, lemma_entry_is_mapped, lemma_mapped_is_entry, Named, OrderedKey, Replicate, Table,
};
use crate::text::{contains_text, text_contains};

verus! {

/// Why a page size is refused.
pub open spec fn limit_fault(limit: u16) -> Option<Fault> {
    if 1 <= limit <= 100 {
        None
    } else {
        Some(
            final_fault(
                CentralErrorCode::ProtocolInvalid,
                "catalog page size is outside the supported range"@,
            ),
        )
    }
}

pub fn validate_limit(limit: u16) -> (result: CentralResult<()>)
    ensures
        fault_of(result) == limit_fault(limit),
{
    if limit < 1 || limit > 100 {
        return Err(
            final_failure(
                CentralErrorCode::ProtocolInvalid,
                "catalog page size is outside the supported range",
            ),
        );
    }
    Ok(())
}

/// The lower-case form of a text.
pub uninterp spec fn lowercase(text: Seq<char>) -> Seq<char>;

/// `str::to_lowercase`: its result is a function of the text alone, by the Unicode mapping of each
/// character. Which text it is, is not stated.
#[verifier::external_body]
pub(crate) fn lowercased(text: &str) -> (lower: String)
    ensures
        lower@ == lowercase(text@),
{
    text.to_lowercase()
}

/// Both lower-cased texts, and whether either holds the lower-cased query.
pub open spec fn lower_forms_match(id: Seq<char>, name: Seq<char>, query: Seq<char>) -> bool {
    contains_text(id, query) || contains_text(name, query)
}

/// A search text is found in the identity or the name, whatever the case.
pub open spec fn is_match(id: Seq<char>, name: Seq<char>, query: Option<String>) -> bool {
    match query {
        None => true,
        Some(text) => lower_forms_match(lowercase(id), lowercase(name), lowercase(text@)),
    }
}

/// Tells whether a lower-cased query is found in a lower-cased identity or name.
#[must_use]
pub fn matches_lowercase(id: &str, name: &str, query: &str) -> (found: bool)
    ensures
        found == lower_forms_match(id@, name@, query@),
{
    text_contains(id, query) || text_contains(name, query)
}

/// Tells whether a search text is found in the identity or the name, whatever the case.
#[must_use]
pub fn matches_query(id: &str, name: &str, query: &Option<String>) -> (found: bool)
    ensures
        found == is_match(id@, name@, *query),
{
    match query {
        None => true,
        Some(query) => matches_lowercase(
            lowercased(id).as_str(),
            lowercased(name).as_str(),
            lowercased(query.as_str()).as_str(),
        ),
    }
}

/// A time that orders newest first.
pub struct Newest(pub u64);

impl Named for Newest {
    type Name = u64;

    open spec fn name(self) -> u64 {
        self.0
    }

    open spec fn precedes(left: u64, right: u64) -> bool {
        left > right
    }

    proof fn lemma_irreflexive(name: u64) {
    }

    proof fn lemma_transitive(first: u64, second: u64, third: u64) {
    }

    proof fn lemma_total(left: u64, right: u64) {
    }
}

impl OrderedKey for Newest {
    fn is_before(&self, other: &Self) -> (before: bool) {
        self.0 > other.0
    }

    fn is_same(&self, other: &Self) -> (equal: bool) {
        self.0 == other.0
    }
}

/// A record that is listed by when it was created and by an identity.
pub trait Dated: Sized {
    type Id: Named;

    spec fn created(self) -> u64;

    spec fn listed_id(self) -> <Self::Id as Named>::Name;
}

/// A record whose place in a listing can be computed.
pub trait Paged: Dated + Replicate where Self::Id: OrderedKey {
    fn page_key(&self) -> (key: (Newest, Self::Id))
        ensures
            key.0.name() == self.created(),
            key.1.name() == self.listed_id(),
    ;
}

/// Where a record stands in a listing.
pub open spec fn place<V: Dated>(record: V) -> (u64, <V::Id as Named>::Name) {
    (record.created(), record.listed_id())
}

/// A record comes before another one in a listing.
pub open spec fn is_listed_before<V: Dated>(
    left: (u64, <V::Id as Named>::Name),
    right: (u64, <V::Id as Named>::Name),
) -> bool {
    left.0 > right.0 || (left.0 == right.0 && V::Id::precedes(left.1, right.1))
}

/// The kept records of a store, each one once, newest first and then by identity.
pub open spec fn is_listing_of<N, V: Dated>(
    listing: Seq<V>,
    records: Map<N, V>,
    keep: spec_fn(V) -> bool,
) -> bool {
    &&& forall|i: int, j: int|
        0 <= i < j < listing.len() ==> is_listed_before::<V>(
            place(#[trigger] listing[i]),
            place(#[trigger] listing[j]),
        )
    &&& forall|i: int|
        0 <= i < listing.len() ==> keep(#[trigger] listing[i]) && records.contains_value(listing[i])
    &&& forall|name: N| #[trigger]
        records.contains_key(name) && keep(records[name]) ==> listing.contains(records[name])
}

/// No two kept records of a store have the same place in a listing.
pub open spec fn places_are_distinct<K: Named, V: Dated>(
    entries: Seq<(K, V)>,
    keep: spec_fn(V) -> bool,
) -> bool {
    forall|i: int, j: int|
        0 <= i < j < entries.len() && keep((#[trigger] entries[i]).1) && keep(
            (#[trigger] entries[j]).1,
        ) ==> place(entries[i].1) != place(entries[j].1)
}

/// The first `limit` kept records of a store, and whether there are more.
#[verifier::rlimit(40)]
pub(crate) fn list_page<K: OrderedKey, V: Paged, F: Fn(&V) -> bool>(
    table: &Table<K, V>,
    keep: F,
    Ghost(kept): Ghost<spec_fn(V) -> bool>,
    limit: usize,
) -> (page: (Vec<V>, bool)) where V::Id: OrderedKey
    requires
        table.well_formed(),
        places_are_distinct(table.entries(), kept),
        forall|value: &V| #[trigger] call_requires(keep, (value,)),
        forall|value: &V, verdict: bool| #[trigger]
            call_ensures(keep, (value,), verdict) ==> verdict == kept(*value),
    ensures
        exists|listing: Seq<V>|
            {
                &&& #[trigger] is_listing_of(listing, table@, kept)
                &&& page.0@.same(at_most(listing, limit as nat))
                &&& page.1 == (listing.len() > limit)
            },
{
    let ghost entries = table.entries();
    let mut sorted: Table<(Newest, V::Id), usize> = Table::new();
    let mut index: usize = 0;
    while index < table.len()
        invariant
            entries == table.entries(),
            table.well_formed(),
            index <= entries.len(),
            sorted.well_formed(),
            places_are_distinct(entries, kept),
            forall|value: &V| #[trigger] call_requires(keep, (value,)),
            forall|value: &V, verdict: bool| #[trigger]
                call_ensures(keep, (value,), verdict) ==> verdict == kept(*value),
            forall|name: (u64, <V::Id as Named>::Name)| #[trigger]
                sorted@.contains_key(name) ==> {
                    &&& sorted@[name] < index
                    &&& kept(entries[sorted@[name] as int].1)
                    &&& place(entries[sorted@[name] as int].1) == name
                },
            forall|i: int|
                0 <= i < index && kept((#[trigger] entries[i]).1) ==> sorted@.contains_key(
                    place(entries[i].1),
                ) && sorted@[place(entries[i].1)] == i,
        decreases entries.len() - index,
    {
        let record = &table.entry_at(index).1;
        if keep(record) {
            let key = record.page_key();
            proof {
                assert(key.name() == place(entries[index as int].1));
            }
            sorted.insert(key, index);
        }
        index += 1;
    }
    let ghost order = sorted.entries();
    let ghost listing = order.map_values(
        |entry: ((Newest, V::Id), usize)| entries[entry.1 as int].1,
    );
    proof {
        assert forall|i: int| 0 <= i < order.len() implies {
            let at = (#[trigger] order[i]).1 as int;
            &&& at < entries.len()
            &&& kept(entries[at].1)
            &&& place(entries[at].1) == order[i].0.name()
            &&& table@.contains_value(entries[at].1)
        } by {
            lemma_entry_is_mapped(order, i);
            let name = order[i].0.name();
            assert(sorted@.contains_key(name) && sorted@[name] == order[i].1);
            let at = order[i].1 as int;
            lemma_entry_is_mapped(entries, at);
        }
        assert forall|i: int, j: int| 0 <= i < j < listing.len() implies is_listed_before::<V>(
            place(#[trigger] listing[i]),
            place(#[trigger] listing[j]),
        ) by {
            assert(listing[i] == entries[order[i].1 as int].1);
            assert(listing[j] == entries[order[j].1 as int].1);
            assert(<(Newest, V::Id) as Named>::precedes(order[i].0.name(), order[j].0.name()));
        }
        assert forall|i: int| 0 <= i < listing.len() implies kept(#[trigger] listing[i])
            && table@.contains_value(listing[i]) by {
            assert(listing[i] == entries[order[i].1 as int].1);
        }
        assert forall|name: K::Name| #[trigger]
            table@.contains_key(name) && kept(table@[name]) implies listing.contains(
            table@[name],
        ) by {
            let at = lemma_mapped_is_entry(entries, name);
            let where_listed = lemma_mapped_is_entry(order, place(entries[at].1));
            assert(order[where_listed].1 == at);
            assert(listing[where_listed] == table@[name]);
        }
        assert(is_listing_of(listing, table@, kept));
    }
    let mut page: Vec<V> = Vec::new();
    let mut taken: usize = 0;
    while taken < sorted.len() && taken < limit
        invariant
            entries == table.entries(),
            order == sorted.entries(),
            listing == order.map_values(
                |entry: ((Newest, V::Id), usize)| entries[entry.1 as int].1,
            ),
            forall|i: int| 0 <= i < order.len() ==> (#[trigger] order[i]).1 < entries.len(),
            taken <= order.len(),
            taken <= limit,
            page@.len() == taken,
            forall|i: int| 0 <= i < taken ==> (#[trigger] page@[i]).same(listing[i]),
        decreases order.len() - taken,
    {
        let at: usize = sorted.entry_at(taken).1;
        page.push(table.entry_at(at).1.replica());
        taken += 1;
    }
    (page, sorted.len() > limit)
}

/// The kept records that a listing shows after a place in it.
pub open spec fn past<V: Dated>(
    keep: spec_fn(V) -> bool,
    cursor: (u64, <V::Id as Named>::Name),
) -> spec_fn(V) -> bool {
    |record: V| keep(record) && is_listed_before::<V>(cursor, place(record))
}

/// A page shows the first records of a listing, and tells its last place where there are more.
pub open spec fn is_page<N, V: Dated + Same>(
    page: Seq<V>,
    next: Option<(u64, <V::Id as Named>::Name)>,
    records: Map<N, V>,
    keep: spec_fn(V) -> bool,
    limit: nat,
) -> bool {
    exists|listing: Seq<V>|
        {
            &&& #[trigger] is_listing_of(listing, records, keep)
            &&& page.same(at_most(listing, limit))
            &&& next is Some <==> listing.len() > limit
            &&& next matches Some(cursor) ==> cursor == place(listing[limit - 1])
        }
}

/// Pages that were asked for one after the other, each one after the place that the page before it
/// told, up to one that told none.
pub open spec fn are_pages<N, V: Dated + Same>(
    pages: Seq<Seq<V>>,
    cursors: Seq<(u64, <V::Id as Named>::Name)>,
    records: Map<N, V>,
    keep: spec_fn(V) -> bool,
    limit: nat,
) -> bool {
    &&& pages.len() == cursors.len() + 1
    &&& forall|k: int|
        0 <= k < pages.len() ==> is_page(
            #[trigger] pages[k],
            if k < cursors.len() {
                Some(cursors[k])
            } else {
                None
            },
            records,
            if k == 0 {
                keep
            } else {
                past(keep, cursors[k - 1])
            },
            limit,
        )
}

proof fn lemma_listed_before_transitive<V: Dated>(
    first: (u64, <V::Id as Named>::Name),
    second: (u64, <V::Id as Named>::Name),
    third: (u64, <V::Id as Named>::Name),
)
    requires
        is_listed_before::<V>(first, second),
        is_listed_before::<V>(second, third),
    ensures
        is_listed_before::<V>(first, third),
{
    if first.0 == second.0 && second.0 == third.0 {
        V::Id::lemma_transitive(first.1, second.1, third.1);
    }
}

proof fn lemma_not_listed_before_itself<V: Dated>(at: (u64, <V::Id as Named>::Name))
    ensures
        !is_listed_before::<V>(at, at),
{
    V::Id::lemma_irreflexive(at.1);
}

proof fn lemma_listings_agree<N, V: Dated>(
    left: Seq<V>,
    right: Seq<V>,
    records: Map<N, V>,
    keep: spec_fn(V) -> bool,
    count: int,
)
    requires
        is_listing_of(left, records, keep),
        is_listing_of(right, records, keep),
        0 <= count <= left.len(),
    ensures
        count <= right.len(),
        forall|i: int| 0 <= i < count ==> left[i] == #[trigger] right[i],
    decreases count,
{
    if count > 0 {
        lemma_listings_agree(left, right, records, keep, count - 1);
        let wanted = left[count - 1];
        let name = choose|name: N| records.contains_key(name) && records[name] == wanted;
        assert(records.contains_key(name) && keep(records[name]));
        assert(right.contains(wanted));
        let at = choose|i: int| 0 <= i < right.len() && right[i] == wanted;
        lemma_not_listed_before_itself::<V>(place(wanted));
        if at < count - 1 {
            assert(left[at] == right[at]);
            assert(is_listed_before::<V>(place(left[at]), place(left[count - 1])));
            assert(false);
        }
        if at > count - 1 {
            let other = right[count - 1];
            let other_name = choose|name: N| records.contains_key(name) && records[name] == other;
            assert(records.contains_key(other_name) && keep(records[other_name]));
            assert(left.contains(other));
            let there = choose|i: int| 0 <= i < left.len() && left[i] == other;
            lemma_not_listed_before_itself::<V>(place(other));
            assert(is_listed_before::<V>(place(other), place(wanted)));
            if there < count - 1 {
                assert(right[there] == left[there]);
                assert(is_listed_before::<V>(place(right[there]), place(right[count - 1])));
            } else if there > count - 1 {
                assert(is_listed_before::<V>(place(wanted), place(other)));
                lemma_listed_before_transitive::<V>(place(wanted), place(other), place(wanted));
            }
            assert(false);
        }
    }
}

/// A store has one listing: two of the same records and the same filter are equal.
pub proof fn lemma_listing_is_unique<N, V: Dated>(
    left: Seq<V>,
    right: Seq<V>,
    records: Map<N, V>,
    keep: spec_fn(V) -> bool,
)
    requires
        is_listing_of(left, records, keep),
        is_listing_of(right, records, keep),
    ensures
        left == right,
{
    lemma_listings_agree(left, right, records, keep, left.len() as int);
    lemma_listings_agree(right, left, records, keep, right.len() as int);
    assert(left =~= right);
}

/// A page answers every filter that keeps the same records.
pub proof fn lemma_page_by_filter<N, V: Dated + Same>(
    page: Seq<V>,
    next: Option<(u64, <V::Id as Named>::Name)>,
    records: Map<N, V>,
    keep: spec_fn(V) -> bool,
    other: spec_fn(V) -> bool,
    limit: nat,
)
    requires
        is_page(page, next, records, keep, limit),
        forall|record: V| #[trigger] keep(record) == other(record),
    ensures
        is_page(page, next, records, other, limit),
{
    let listing = choose|listing: Seq<V>|
        {
            &&& #[trigger] is_listing_of(listing, records, keep)
            &&& page.same(at_most(listing, limit))
            &&& next is Some <==> listing.len() > limit
            &&& next matches Some(cursor) ==> cursor == place(listing[limit - 1])
        };
    assert forall|i: int| 0 <= i < listing.len() implies other(#[trigger] listing[i])
        && records.contains_value(listing[i]) by {
        assert(keep(listing[i]));
    }
    assert forall|name: N| #[trigger]
        records.contains_key(name) && other(records[name]) implies listing.contains(
        records[name],
    ) by {
        assert(keep(records[name]));
    }
    assert(is_listing_of(listing, records, other));
}

/// The place that a page tells comes after the one that it was asked for.
proof fn lemma_cursors_advance<N, V: Dated + Same>(
    pages: Seq<Seq<V>>,
    cursors: Seq<(u64, <V::Id as Named>::Name)>,
    records: Map<N, V>,
    keep: spec_fn(V) -> bool,
    limit: nat,
    at: int,
)
    requires
        are_pages(pages, cursors, records, keep, limit),
        limit > 0,
        0 < at < cursors.len(),
    ensures
        is_listed_before::<V>(cursors[0], cursors[at]),
    decreases at,
{
    let kept = past(keep, cursors[at - 1]);
    assert(is_page(pages[at], Some(cursors[at]), records, kept, limit));
    let listing = choose|listing: Seq<V>|
        {
            &&& #[trigger] is_listing_of(listing, records, kept)
            &&& pages[at].same(at_most(listing, limit))
            &&& Some(cursors[at]) is Some <==> listing.len() > limit
            &&& Some(cursors[at]) matches Some(cursor) ==> cursor == place(listing[limit - 1])
        };
    assert(kept(listing[limit - 1]));
    if at > 1 {
        lemma_cursors_advance(pages, cursors, records, keep, limit, at - 1);
        lemma_listed_before_transitive::<V>(cursors[0], cursors[at - 1], cursors[at]);
    }
}

/// The pages of a walk, one after the other, are the whole listing: they show every kept record
/// once, and in order.
pub proof fn lemma_pages_are_the_listing<N, V: Dated + Same>(
    pages: Seq<Seq<V>>,
    cursors: Seq<(u64, <V::Id as Named>::Name)>,
    records: Map<N, V>,
    keep: spec_fn(V) -> bool,
    limit: nat,
) -> (listing: Seq<V>)
    requires
        are_pages(pages, cursors, records, keep, limit),
        limit > 0,
    ensures
        is_listing_of(listing, records, keep),
        pages.flatten().same(listing),
    decreases pages.len(),
{
    let next = if 0 < cursors.len() {
        Some(cursors[0])
    } else {
        None
    };
    assert(is_page(pages[0], next, records, keep, limit));
    let listing = choose|listing: Seq<V>|
        {
            &&& #[trigger] is_listing_of(listing, records, keep)
            &&& pages[0].same(at_most(listing, limit))
            &&& next is Some <==> listing.len() > limit
            &&& next matches Some(cursor) ==> cursor == place(listing[limit - 1])
        };
    let later = pages.drop_first();
    if cursors.len() == 0 {
        assert(later.flatten() =~= Seq::<V>::empty());
        assert(pages.flatten() =~= pages[0]);
    } else {
        let kept = past(keep, cursors[0]);
        let rest = cursors.drop_first();
        assert forall|k: int| 0 <= k < later.len() implies is_page(
            #[trigger] later[k],
            if k < rest.len() {
                Some(rest[k])
            } else {
                None
            },
            records,
            if k == 0 {
                kept
            } else {
                past(kept, rest[k - 1])
            },
            limit,
        ) by {
            assert(later[k] == pages[k + 1]);
            if k > 0 {
                let wide = past(keep, cursors[k]);
                let narrow = past(kept, cursors[k]);
                lemma_cursors_advance(pages, cursors, records, keep, limit, k);
                assert forall|record: V| #[trigger] wide(record) == narrow(record) by {
                    if wide(record) {
                        lemma_listed_before_transitive::<V>(
                            cursors[0],
                            cursors[k],
                            place(record),
                        );
                    }
                }
                lemma_page_by_filter(
                    pages[k + 1],
                    if k + 1 < cursors.len() {
                        Some(cursors[k + 1])
                    } else {
                        None
                    },
                    records,
                    wide,
                    narrow,
                    limit,
                );
            }
        }
        let found = lemma_pages_are_the_listing(later, rest, records, kept, limit);
        lemma_rest_of_listing(listing, records, keep, limit as int);
        lemma_listing_is_unique(found, listing.skip(limit as int), records, kept);
        assert(pages.flatten() == pages[0] + later.flatten());
        assert forall|i: int| 0 <= i < listing.len() implies (
        #[trigger] pages.flatten()[i]).same(listing[i]) by {
            if i < limit {
                assert(pages[0][i].same(at_most(listing, limit)[i]));
            } else {
                assert(later.flatten()[i - limit].same(found[i - limit]));
            }
        }
    }
    listing
}

/// What is left of a listing after a place in it, as a listing of its own: a cursor neither repeats
/// a record nor skips one.
pub proof fn lemma_rest_of_listing<N, V: Dated>(
    listing: Seq<V>,
    records: Map<N, V>,
    keep: spec_fn(V) -> bool,
    count: int,
)
    requires
        is_listing_of(listing, records, keep),
        1 <= count <= listing.len(),
    ensures
        is_listing_of(listing.skip(count), records, past(keep, place(listing[count - 1]))),
{
    let after = past(keep, place(listing[count - 1]));
    let rest = listing.skip(count);
    assert forall|i: int, j: int| 0 <= i < j < rest.len() implies is_listed_before::<V>(
        place(#[trigger] rest[i]),
        place(#[trigger] rest[j]),
    ) by {
        assert(rest[i] == listing[i + count] && rest[j] == listing[j + count]);
    }
    assert forall|i: int| 0 <= i < rest.len() implies after(#[trigger] rest[i])
        && records.contains_value(rest[i]) by {
        assert(rest[i] == listing[i + count]);
    }
    assert forall|name: N| #[trigger]
        records.contains_key(name) && after(records[name]) implies rest.contains(records[name]) by {
        let at = choose|i: int| 0 <= i < listing.len() && listing[i] == records[name];
        V::Id::lemma_irreflexive(place(records[name]).1);
        if at < count {
            if at < count - 1 {
                let left = place(records[name]);
                let right = place(listing[count - 1]);
                assert(is_listed_before::<V>(place(listing[at]), right));
                assert(is_listed_before::<V>(right, left));
                if left.0 == right.0 {
                    V::Id::lemma_transitive(left.1, right.1, left.1);
                }
            }
            assert(false);
        }
        assert(rest[at - count] == records[name]);
    }
}

} // verus!
