//! Laws of the bounded sequence, proved of the model that its operations are
//! specified by.

use vstd::prelude::*;

use crate::error::Error;
use crate::model::after_pop;
use crate::model::after_pops;
use crate::model::after_pushes;
use crate::model::append_outcome;
use crate::model::appended;
use crate::model::fits;
use crate::model::popped;
use crate::model::pops;

verus! {

/// No operation leads out of the capacity: where the live elements number at
/// most `cap`, they still do after any append and after a pop.
pub proof fn lemma_length_stays_within_capacity<T>(live: Seq<T>, items: Seq<T>, cap: nat)
    requires
        live.len() <= cap,
    ensures
        appended(live, items, cap).len() <= cap,
        after_pop(live).len() <= cap,
{
}

/// An append is all or nothing: either every item is added behind the live
/// elements and success is reported, or the items do not all fit, the
/// capacity error is reported and the live elements are what they were.
pub proof fn lemma_append_is_all_or_nothing<T>(live: Seq<T>, items: Seq<T>, cap: nat)
    ensures
        fits(live, items.len(), cap) ==> append_outcome(live, items, cap) == Ok::<(), Error>(())
            && appended(live, items, cap) == live + items,
        !fits(live, items.len(), cap) ==> append_outcome(live, items, cap) == Err::<(), Error>(
            Error::NotEnoughCapacity,
        ) && appended(live, items, cap) == live,
{
}

/// A full array refuses every push: the capacity error is reported and
/// neither the number of live elements nor any of them changes.
pub proof fn lemma_full_array_refuses_push<T>(live: Seq<T>, value: T, cap: nat)
    requires
        live.len() == cap,
    ensures
        append_outcome(live, seq![value], cap) == Err::<(), Error>(Error::NotEnoughCapacity),
        appended(live, seq![value], cap) == live,
{
}

/// Pushing values one by one, where all of them fit, adds them in order:
/// it leaves what one append of them all leaves.
pub proof fn lemma_pushes_append_in_order<T>(live: Seq<T>, values: Seq<T>, cap: nat)
    requires
        fits(live, values.len(), cap),
    ensures
        after_pushes(live, values, cap) == live + values,
        after_pushes(live, values, cap) == appended(live, values, cap),
    decreases values.len(),
{
    if values.len() > 0 {
        lemma_pushes_append_in_order(live + seq![values[0]], values.drop_first(), cap);
    }
}

/// Pops undo pushes, last in first out: after pushing `values`, all of which
/// fit, as many pops hand the values back in reverse order of insertion and
/// leave the live elements as they were before the pushes.
pub proof fn lemma_pops_undo_pushes<T>(live: Seq<T>, values: Seq<T>, cap: nat)
    requires
        fits(live, values.len(), cap),
    ensures
        pops(after_pushes(live, values, cap), values.len()) == values.reverse().map_values(
            |v: T| Some(v),
        ),
        after_pops(after_pushes(live, values, cap), values.len()) == live,
        after_pops(after_pushes(live, values, cap), values.len()).len() == live.len(),
{
    lemma_pushes_append_in_order(live, values, cap);
    lemma_pops_of_appended(live, values);
}

/// The pops that take off what was appended: as many pops as `values` is
/// long hand out its elements last to first and leave `live`.
proof fn lemma_pops_of_appended<T>(live: Seq<T>, values: Seq<T>)
    ensures
        pops(live + values, values.len()) == values.reverse().map_values(|v: T| Some(v)),
        after_pops(live + values, values.len()) == live,
    decreases values.len(),
{
    if values.len() > 0 {
        let shorter = values.drop_last();
        lemma_pops_of_appended(live, shorter);
        assert(after_pop(live + values) == live + shorter);
    }
}

/// A cleared array has nothing to pop: a pop of the empty sequence hands out
/// nothing and leaves it empty.
pub proof fn lemma_cleared_array_pops_nothing<T>()
    ensures
        popped(Seq::<T>::empty()) == None::<T>,
        after_pop(Seq::<T>::empty()) == Seq::<T>::empty(),
{
}

} // verus!
