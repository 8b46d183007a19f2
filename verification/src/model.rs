//! The mathematical model of a bounded sequence.
//!
//! A bounded sequence is viewed as the `Seq` of its live elements together with
//! the number of slots it owns. The functions here say what each kind of
//! operation does to that view; the executable operations are specified by
//! them, and the laws of the container are proved about them.

use vstd::prelude::*;

use crate::error::Error;
use crate::error::Result;

verus! {

/// Whether `extra` more elements fit behind `live` when `cap` slots exist.
pub open spec fn fits<T>(live: Seq<T>, extra: nat, cap: nat) -> bool {
    live.len() + extra <= cap
}

/// What an append of `items` reports: success exactly when all of them fit.
pub open spec fn append_outcome<T>(live: Seq<T>, items: Seq<T>, cap: nat) -> Result<()> {
    if fits(live, items.len(), cap) {
        Ok(())
    } else {
        Err(Error::NotEnoughCapacity)
    }
}

/// The live elements after an append of `items`: all of them are added, in
/// order, when they fit; otherwise nothing changes.
pub open spec fn appended<T>(live: Seq<T>, items: Seq<T>, cap: nat) -> Seq<T> {
    if fits(live, items.len(), cap) {
        live + items
    } else {
        live
    }
}

/// What a pop hands out: the last live element, if there is one.
pub open spec fn popped<T>(live: Seq<T>) -> Option<T> {
    if live.len() == 0 {
        None
    } else {
        Some(live.last())
    }
}

/// The live elements after a pop: all but the last; an empty sequence stays
/// empty.
pub open spec fn after_pop<T>(live: Seq<T>) -> Seq<T> {
    if live.len() == 0 {
        live
    } else {
        live.drop_last()
    }
}

/// The live elements after each of `values` has been pushed in turn, one
/// checked push per value.
pub open spec fn after_pushes<T>(live: Seq<T>, values: Seq<T>, cap: nat) -> Seq<T>
    decreases values.len(),
{
    if values.len() == 0 {
        live
    } else {
        after_pushes(appended(live, seq![values[0]], cap), values.drop_first(), cap)
    }
}

/// What `count` pops in a row hand out, the first pop's value first.
pub open spec fn pops<T>(live: Seq<T>, count: nat) -> Seq<Option<T>>
    decreases count,
{
    if count == 0 {
        Seq::empty()
    } else {
        seq![popped(live)] + pops(after_pop(live), (count - 1) as nat)
    }
}

/// The live elements after `count` pops in a row.
pub open spec fn after_pops<T>(live: Seq<T>, count: nat) -> Seq<T>
    decreases count,
{
    if count == 0 {
        live
    } else {
        after_pops(after_pop(live), (count - 1) as nat)
    }
}

} // verus!
