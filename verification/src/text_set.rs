//! Sets of texts, kept as distinct texts in ascending order.
use vstd::prelude::*;

use crate::identifier::Identifier;
use crate::text::{
    lemma_text_before_irreflexive, lemma_text_before_total, lemma_text_before_transitive,
    text_before,
};

verus! {

/// Distinct texts in ascending order.
pub open spec fn is_text_set(items: Seq<Identifier>) -> bool {
    forall|i: int, j: int| 0 <= i < j < items.len() ==> text_before(items[i]@, items[j]@)
}

/// The texts that a list holds.
pub open spec fn texts_of(items: Seq<Identifier>) -> Set<Seq<char>> {
    Set::new(|text: Seq<char>| exists|i: int| 0 <= i < items.len() && items[i]@ == text)
}

/// A set keeps its order when a text goes in at its place.
proof fn lemma_insert_keeps_order(items: Seq<Identifier>, position: int, item: Identifier)
    requires
        is_text_set(items),
        0 <= position <= items.len(),
        forall|i: int| 0 <= i < position ==> text_before(items[i]@, item@),
        forall|i: int| position <= i < items.len() ==> text_before(item@, items[i]@),
    ensures
        is_text_set(items.insert(position, item)),
        texts_of(items.insert(position, item)) == texts_of(items).insert(item@),
{
    let after = items.insert(position, item);
    assert forall|text: Seq<char>| texts_of(after).contains(text) implies texts_of(items).insert(
        item@,
    ).contains(text) by {
        let i = choose|i: int| 0 <= i < after.len() && after[i]@ == text;
        if i < position {
            assert(items[i]@ == text);
        } else if i > position {
            assert(items[i - 1]@ == text);
        }
    }
    assert forall|text: Seq<char>| texts_of(items).insert(item@).contains(text) implies texts_of(
        after,
    ).contains(text) by {
        if text == item@ {
            assert(after[position]@ == text);
        } else {
            let i = choose|i: int| 0 <= i < items.len() && items[i]@ == text;
            if i < position {
                assert(after[i]@ == text);
            } else {
                assert(after[i + 1]@ == text);
            }
        }
    }
    assert(texts_of(after) =~= texts_of(items).insert(item@));
}

/// Adds a text to a set.
fn insert_text(items: &mut Vec<Identifier>, item: Identifier)
    requires
        is_text_set(old(items)@),
    ensures
        is_text_set(final(items)@),
        texts_of(final(items)@) == texts_of(old(items)@).insert(item@),
{
    let mut position: usize = 0;
    while position < items.len() && items[position].is_before(&item)
        invariant
            position <= items@.len(),
            items@ == old(items)@,
            is_text_set(items@),
            forall|i: int| 0 <= i < position ==> text_before(items@[i]@, item@),
        decreases items.len() - position,
    {
        position += 1;
    }
    if position < items.len() && items[position] == item {
        assert(texts_of(items@).insert(item@) =~= texts_of(items@)) by {
            assert(items@[position as int]@ == item@);
        }
        return ;
    }
    proof {
        assert forall|i: int| position <= i < items@.len() implies text_before(
            item@,
            items@[i]@,
        ) by {
            lemma_text_before_total(items@[position as int]@, item@);
            if i > position {
                lemma_text_before_transitive(item@, items@[position as int]@, items@[i]@);
            }
        }
        lemma_insert_keeps_order(items@, position as int, item);
    }
    items.insert(position, item);
}

/// Collects texts into a set.
pub fn text_set(items: Vec<Identifier>) -> (set: Vec<Identifier>)
    ensures
        is_text_set(set@),
        texts_of(set@) == texts_of(items@),
{
    let mut set: Vec<Identifier> = Vec::new();
    let mut index: usize = 0;
    proof {
        assert(texts_of(set@) =~= texts_of(items@.take(0)));
    }
    while index < items.len()
        invariant
            index <= items.len(),
            is_text_set(set@),
            texts_of(set@) == texts_of(items@.take(index as int)),
        decreases items.len() - index,
    {
        proof {
            let before = items@.take(index as int);
            let after = items@.take(index + 1);
            assert forall|text: Seq<char>| texts_of(after).contains(text) implies texts_of(
                before,
            ).insert(items@[index as int]@).contains(text) by {
                let i = choose|i: int| 0 <= i < after.len() && after[i]@ == text;
                if i < index {
                    assert(before[i]@ == text);
                }
            }
            assert forall|text: Seq<char>| texts_of(before).insert(
                items@[index as int]@,
            ).contains(text) implies texts_of(after).contains(text) by {
                if text == items@[index as int]@ {
                    assert(after[index as int]@ == text);
                } else {
                    let i = choose|i: int| 0 <= i < before.len() && before[i]@ == text;
                    assert(after[i]@ == text);
                }
            }
            assert(texts_of(after) =~= texts_of(before).insert(items@[index as int]@));
        }
        insert_text(&mut set, items[index].clone());
        index += 1;
    }
    proof {
        assert(items@.take(items@.len() as int) =~= items@);
    }
    set
}

/// Sets that hold the same texts list them alike.
pub proof fn lemma_text_sets_are_canonical(left: Seq<Identifier>, right: Seq<Identifier>)
    requires
        is_text_set(left),
        is_text_set(right),
        texts_of(left) == texts_of(right),
    ensures
        left.len() == right.len(),
        forall|i: int| 0 <= i < left.len() ==> left[i]@ == right[i]@,
    decreases left.len(),
{
    if left.len() == 0 {
        if right.len() > 0 {
            assert(texts_of(right).contains(right[0]@));
            assert(texts_of(left).contains(right[0]@));
            assert(false);
        }
    } else if right.len() == 0 {
        assert(texts_of(left).contains(left[0]@));
        assert(texts_of(right).contains(left[0]@));
        assert(false);
    } else {
        let a = left.last()@;
        let b = right.last()@;
        assert(texts_of(left).contains(a));
        assert(texts_of(right).contains(b));
        assert(texts_of(right).contains(a));
        assert(texts_of(left).contains(b));
        let i = choose|i: int| 0 <= i < right.len() && right[i]@ == a;
        let j = choose|j: int| 0 <= j < left.len() && left[j]@ == b;
        if a != b {
            assert(text_before(a, b));
            assert(text_before(b, a));
            lemma_text_before_transitive(a, b, a);
            lemma_text_before_irreflexive(a);
            assert(false);
        }
        lemma_drop_last_texts(left);
        lemma_drop_last_texts(right);
        lemma_text_sets_are_canonical(left.drop_last(), right.drop_last());
        assert forall|k: int| 0 <= k < left.len() implies left[k]@ == right[k]@ by {
            if k < left.len() - 1 {
                assert(left[k] == left.drop_last()[k]);
                assert(right[k] == right.drop_last()[k]);
            }
        }
    }
}

proof fn lemma_drop_last_texts(items: Seq<Identifier>)
    requires
        is_text_set(items),
        items.len() > 0,
    ensures
        is_text_set(items.drop_last()),
        texts_of(items.drop_last()) == texts_of(items).remove(items.last()@),
{
    let rest = items.drop_last();
    let last = items.last()@;
    assert forall|text: Seq<char>| texts_of(rest).contains(text) implies texts_of(items).remove(
        last,
    ).contains(text) by {
        let i = choose|i: int| 0 <= i < rest.len() && rest[i]@ == text;
        assert(items[i]@ == text);
        lemma_text_before_irreflexive(last);
    }
    assert forall|text: Seq<char>| texts_of(items).remove(last).contains(text) implies texts_of(
        rest,
    ).contains(text) by {
        let i = choose|i: int| 0 <= i < items.len() && items[i]@ == text;
        assert(rest[i]@ == text);
    }
    assert(texts_of(rest) =~= texts_of(items).remove(last));
}

} // verus!
