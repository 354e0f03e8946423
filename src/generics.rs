//! Code written once for many element types.
use vstd::laws_cmp::obeys_partial_cmp_spec_properties;
use vstd::laws_eq::obeys_concrete_eq;
use vstd::prelude::*;
use vstd::std_specs::cmp::{PartialEqSpec, PartialOrdSpec};
use std::cmp::Ordering;

verus! {

/// Whether `a` compares greater than `b` by `T`'s ordering.
pub open spec fn greater<T: PartialOrd>(a: T, b: T) -> bool {
    a.partial_cmp_spec(&b) == Some(Ordering::Greater)
}

/// `T`'s comparisons follow its specified ordering, and that ordering is
/// transitive.
pub open spec fn well_ordered<T: PartialOrd>() -> bool {
    T::obeys_partial_cmp_spec() && obeys_partial_cmp_spec_properties::<T>()
}

/// `T`'s ordering is moreover total, and its equality is identity: any two
/// values compare, and they compare equal only when they are the same.
pub open spec fn totally_ordered<T: PartialOrd>() -> bool {
    &&& well_ordered::<T>()
    &&& obeys_concrete_eq::<T>()
    &&& forall|a: T, b: T| #[trigger] a.partial_cmp_spec(&b) is Some
}

/// Whether, under a total ordering, the element at `i` is greater than
/// every element before it: it is the first of the largest elements.
pub open spec fn is_first_largest_at<T: PartialOrd>(list: Seq<T>, i: int) -> bool {
    totally_ordered::<T>() ==> forall|k: int| 0 <= k < i ==> greater(list[i], #[trigger] list[k])
}

/// Whether, under a well-behaved ordering, no other element of `list` is
/// greater than the one at `i`.
pub open spec fn is_largest_at<T: PartialOrd>(list: Seq<T>, i: int) -> bool {
    well_ordered::<T>() ==> forall|j: int|
        0 <= j < list.len() && j != i ==> !greater(#[trigger] list[j], list[i])
}

/// An element of `list` than which no other element is greater; under a
/// total ordering, the first such element. The list must not be empty.
pub fn largest<T: PartialOrd>(list: &[T]) -> (r: &T)
    requires
        list@.len() > 0,
    ensures
        exists|i: int|
            0 <= i < list@.len() && *r == list@[i] && is_largest_at(list@, i)
                && is_first_largest_at(list@, i),
{
    let mut best: usize = 0;
    let mut i: usize = 1;
    while i < list.len()
        invariant
            0 <= best < i <= list@.len(),
            well_ordered::<T>() ==> forall|j: int|
                0 <= j < i && j != best ==> !greater(#[trigger] list@[j], list@[best as int]),
            is_first_largest_at(list@, best as int),
        decreases list@.len() - i,
    {
        if list[i].gt(&list[best]) {
            proof {
                if well_ordered::<T>() {
                    reveal(obeys_partial_cmp_spec_properties);
                    assert forall|j: int| 0 <= j < i + 1 && j != i implies !greater(
                        #[trigger] list@[j],
                        list@[i as int],
                    ) by {
                        if greater(list@[j], list@[i as int]) {
                            if j == best {
                                assert(list@[j].partial_cmp_spec(&list@[i as int]) == Some(
                                    Ordering::Less,
                                ));
                            } else {
                                assert(greater(list@[j], list@[best as int]));
                            }
                        }
                    }
                }
                if totally_ordered::<T>() {
                    reveal(obeys_partial_cmp_spec_properties);
                    reveal(obeys_concrete_eq);
                    assert forall|k: int| 0 <= k < i implies greater(
                        list@[i as int],
                        #[trigger] list@[k],
                    ) by {
                        if k != best && k > best {
                            assert(!greater(list@[k], list@[best as int]));
                            if list@[k].partial_cmp_spec(&list@[best as int]) == Some(
                                Ordering::Less,
                            ) {
                                assert(greater(list@[best as int], list@[k]));
                            } else {
                                assert(list@[k].partial_cmp_spec(&list@[best as int]) is Some);
                                assert(list@[k].partial_cmp_spec(&list@[best as int]) == Some(
                                    Ordering::Equal,
                                ));
                                assert(list@[k].eq_spec(&list@[best as int]));
                                assert(list@[k] == list@[best as int]);
                            }
                        } else if k < best {
                            assert(greater(list@[best as int], list@[k]));
                        }
                    }
                }
            }
            best = i;
        }
        i = i + 1;
    }
    assert(is_largest_at(list@, best as int) && is_first_largest_at(list@, best as int));
    &list[best]
}

/// Two values of one type.
pub struct Pair<T>(pub T, pub T);

impl<T> Pair<T> {
    pub fn new(x: T, y: T) -> (p: Self)
        ensures
            p.0 == x,
            p.1 == y,
    {
        Self(x, y)
    }

    /// Exchanges the two values.
    pub fn swap(&mut self)
        ensures
            final(self).0 == old(self).1,
            final(self).1 == old(self).0,
    {
        std::mem::swap(&mut self.0, &mut self.1);
    }
}

/// A point in the plane with coordinates of any one type.
pub struct Point<T> {
    pub x: T,
    pub y: T,
}

impl<T> Point<T> {
    /// The first coordinate.
    pub fn x(&self) -> (r: &T)
        ensures
            *r == self.x,
    {
        &self.x
    }
}

} // verus!
