//! Equality and order of bounded sequences.
//!
//! Only the live elements count: two arrays are equal when they hold equal
//! elements in equal number, and they are ordered as words in a dictionary
//! are, a proper prefix coming before what extends it. The capacities play no
//! part.

use core::cmp::Ordering;
use vstd::prelude::*;
use vstd::std_specs::cmp::PartialEqSpec;
use vstd::std_specs::cmp::PartialEqSpecImpl;
use vstd::std_specs::cmp::PartialOrdSpec;
use vstd::std_specs::cmp::PartialOrdSpecImpl;

use crate::push_array::PushArray;

verus! {

/// Two sequences are equal when they are equally long and equal element by
/// element, as the elements' own `==` has it.
pub open spec fn elementwise_eq<T: PartialEq>(a: Seq<T>, b: Seq<T>) -> bool {
    &&& a.len() == b.len()
    &&& forall|i: int| 0 <= i < a.len() ==> #[trigger] a[i].eq_spec(&b[i])
}

/// The dictionary order of two sequences: the first pair of elements that
/// does not compare as equal decides; where one sequence runs out first, it is
/// the lesser.
pub open spec fn lexicographic<T: PartialOrd>(a: Seq<T>, b: Seq<T>) -> Option<Ordering>
    decreases a.len(),
{
    if a.len() == 0 && b.len() == 0 {
        Some(Ordering::Equal)
    } else if a.len() == 0 {
        Some(Ordering::Less)
    } else if b.len() == 0 {
        Some(Ordering::Greater)
    } else {
        match a[0].partial_cmp_spec(&b[0]) {
            Some(Ordering::Equal) => lexicographic(a.drop_first(), b.drop_first()),
            decided => decided,
        }
    }
}

/// The first difference decides: where two sequences compare as equal
/// element by element before slot `at`, and not in it, they are ordered as
/// their elements in that slot are.
pub proof fn lemma_first_difference_decides<T: PartialOrd>(a: Seq<T>, b: Seq<T>, at: int)
    requires
        0 <= at < a.len(),
        at < b.len(),
        forall|i: int| 0 <= i < at ==> #[trigger] a[i].partial_cmp_spec(&b[i]) == Some(Ordering::Equal),
        a[at].partial_cmp_spec(&b[at]) != Some(Ordering::Equal),
    ensures
        lexicographic(a, b) == a[at].partial_cmp_spec(&b[at]),
    decreases at,
{
    if at > 0 {
        lemma_first_difference_decides(a.drop_first(), b.drop_first(), at - 1);
    }
}

/// Where one sequence runs out while all its elements compare as equal to
/// those of the other, the lengths decide: the shorter is the lesser, and
/// sequences of one length are equal in order.
pub proof fn lemma_common_prefix_orders_by_length<T: PartialOrd>(a: Seq<T>, b: Seq<T>)
    requires
        forall|i: int|
            0 <= i < a.len() && i < b.len() ==> #[trigger] a[i].partial_cmp_spec(&b[i]) == Some(
                Ordering::Equal,
            ),
    ensures
        a.len() < b.len() ==> lexicographic(a, b) == Some(Ordering::Less),
        a.len() == b.len() ==> lexicographic(a, b) == Some(Ordering::Equal),
        a.len() > b.len() ==> lexicographic(a, b) == Some(Ordering::Greater),
    decreases a.len(),
{
    if a.len() > 0 && b.len() > 0 {
        lemma_common_prefix_orders_by_length(a.drop_first(), b.drop_first());
    }
}

/// Sequences of different lengths are never equal, whatever they hold.
pub proof fn lemma_different_lengths_are_unequal<T: PartialEq>(a: Seq<T>, b: Seq<T>)
    requires
        a.len() != b.len(),
    ensures
        !elementwise_eq(a, b),
{
}

/// Compares two slices element by element.
fn slices_equal<T: PartialEq>(a: &[T], b: &[T]) -> (r: bool)
    ensures
        T::obeys_eq_spec() ==> r == elementwise_eq(a@, b@),
{
    if a.len() != b.len() {
        return false;
    }
    let mut i: usize = 0;
    while i < a.len()
        invariant
            a@.len() == b@.len(),
            i <= a@.len(),
            T::obeys_eq_spec() ==> forall|k: int| 0 <= k < i ==> #[trigger] a@[k].eq_spec(&b@[k]),
        decreases a@.len() - i,
    {
        if !(a[i] == b[i]) {
            return false;
        }
        i += 1;
    }
    true
}

/// Compares two slices in dictionary order.
fn slices_partial_cmp<T: PartialOrd>(a: &[T], b: &[T]) -> (r: Option<Ordering>)
    ensures
        T::obeys_partial_cmp_spec() ==> r == lexicographic(a@, b@),
{
    let mut i: usize = 0;
    let ghost mut at: int = 0;
    proof {
        assert(a@.skip(0) == a@);
        assert(b@.skip(0) == b@);
    }
    while i < a.len() && i < b.len()
        invariant
            at == i,
            i <= a@.len(),
            i <= b@.len(),
            T::obeys_partial_cmp_spec() ==> lexicographic(a@, b@) == lexicographic(
                a@.skip(at),
                b@.skip(at),
            ),
        decreases a@.len() - i,
    {
        let decided = a[i].partial_cmp(&b[i]);
        proof {
            assert(a@.skip(at).drop_first() == a@.skip(at + 1));
            assert(b@.skip(at).drop_first() == b@.skip(at + 1));
        }
        match decided {
            Some(Ordering::Equal) => {},
            _ => {
                return decided;
            },
        }
        i += 1;
        proof {
            at = at + 1;
        }
    }
    if i < b.len() {
        Some(Ordering::Less)
    } else if i < a.len() {
        Some(Ordering::Greater)
    } else {
        Some(Ordering::Equal)
    }
}

impl<T: PartialEq, const CAP: usize, const OTHER: usize> PartialEq<PushArray<T, OTHER>> for PushArray<T, CAP> {
    /// Whether the two arrays hold equal elements in equal number.
    fn eq(&self, other: &PushArray<T, OTHER>) -> (r: bool)
        ensures
            T::obeys_eq_spec() ==> r == elementwise_eq(self@, other@),
    {
        slices_equal(self.as_slice(), other.as_slice())
    }
}

impl<T: PartialEq, const CAP: usize, const OTHER: usize> PartialEqSpecImpl<PushArray<T, OTHER>> for PushArray<T, CAP> {
    open spec fn obeys_eq_spec() -> bool {
        T::obeys_eq_spec()
    }

    open spec fn eq_spec(&self, other: &PushArray<T, OTHER>) -> bool {
        elementwise_eq(self@, other@)
    }
}

impl<T: Eq, const CAP: usize> Eq for PushArray<T, CAP> {}

impl<T: PartialOrd, const CAP: usize, const OTHER: usize> PartialOrd<PushArray<T, OTHER>> for PushArray<T, CAP> {
    /// The dictionary order of the live elements of the two arrays.
    fn partial_cmp(&self, other: &PushArray<T, OTHER>) -> (r: Option<Ordering>)
        ensures
            T::obeys_partial_cmp_spec() ==> r == lexicographic(self@, other@),
    {
        slices_partial_cmp(self.as_slice(), other.as_slice())
    }
}

impl<T: PartialOrd, const CAP: usize, const OTHER: usize> PartialOrdSpecImpl<PushArray<T, OTHER>> for PushArray<T, CAP> {
    open spec fn obeys_partial_cmp_spec() -> bool {
        T::obeys_partial_cmp_spec()
    }

    open spec fn partial_cmp_spec(&self, other: &PushArray<T, OTHER>) -> Option<Ordering> {
        lexicographic(self@, other@)
    }
}

} // verus!
