//! Equality of stored values: texts compare by content, everything else field by field.
use vstd::prelude::*;

verus! {

/// What it means for two values to compare equal.
pub trait Same: Sized {
    spec fn same(self, other: Self) -> bool;
}

impl<T: Same> Same for Option<T> {
    open spec fn same(self, other: Self) -> bool {
        match (self, other) {
            (None, None) => true,
            (Some(left), Some(right)) => left.same(right),
            _ => false,
        }
    }
}

impl<T: Same> Same for Vec<T> {
    open spec fn same(self, other: Self) -> bool {
        self@.same(other@)
    }
}

impl<T: Same> Same for Seq<T> {
    open spec fn same(self, other: Self) -> bool {
        &&& self.len() == other.len()
        &&& forall|i: int| 0 <= i < self.len() ==> (#[trigger] self[i]).same(other[i])
    }
}

/// Tells whether two lists hold the same numbers in the same order.
pub(crate) fn numbers_equal(left: &Vec<u32>, right: &Vec<u32>) -> (equal: bool)
    ensures
        equal == (left@ == right@),
{
    let equal = *left == *right;
    proof {
        if equal {
            assert(left@ =~= right@);
        }
    }
    equal
}

} // verus!
