//! The bounded sequence itself: a live prefix of at most `CAP` elements.

use vstd::prelude::*;
use vstd::std_specs::iter::IteratorSpec;

use crate::error::Error;
use crate::error::Result;
use crate::model::after_pop;
use crate::model::append_outcome;
use crate::model::appended;
use crate::model::popped;

verus! {

/// A pushable array with fixed capacity.
///
/// Behaves like a `Vec` that never grows past `CAP` elements: appending to a
/// full array is an error rather than a reallocation. Its view is the sequence
/// of live elements, oldest first.
#[derive(Debug, Ord)]
pub struct PushArray<T, const CAP: usize> {
    initialized: Vec<T>,
}

impl<T, const CAP: usize> View for PushArray<T, CAP> {
    type V = Seq<T>;

    closed spec fn view(&self) -> Seq<T> {
        self.initialized@
    }
}

/// Wraps `Vec::as_mut_slice`. Claimed of it, as std documents: the slice shows
/// the whole vector, and what is written through the slice is what the vector
/// holds afterwards. Claimed beyond what vstd states of that method, because
/// the array's type invariant rests on it: a slice cannot change its length,
/// and the call does not unwind.
#[verifier::external_body]
fn live_slice_mut<T>(items: &mut Vec<T>) -> (slice: &mut [T])
    ensures
        slice@ == old(items)@,
        final(items)@ == final(slice)@,
        final(slice)@.len() == slice@.len(),
    no_unwind
{
    items.as_mut_slice()
}

/// Wraps `Vec::extend` for an array taken by value. Claimed of it, as std
/// documents: the array's elements are moved behind those already in the
/// vector, first to last.
#[verifier::external_body]
fn extend_from_array<T, const M: usize>(items: &mut Vec<T>, array: [T; M])
    ensures
        final(items)@ == old(items)@ + array@,
{
    items.extend(array);
}

impl<T, const CAP: usize> PushArray<T, CAP> {
    /// The live prefix never outgrows the capacity.
    #[verifier::type_invariant]
    spec fn within_capacity(self) -> bool {
        self.initialized@.len() <= CAP
    }

    /// Moves the live elements out, leaving the array empty until they are
    /// put back.
    fn take_items(&mut self) -> (items: Vec<T>)
        ensures
            items@ == old(self)@,
            final(self)@ == Seq::<T>::empty(),
    {
        let mut items = Vec::new();
        core::mem::swap(&mut items, &mut self.initialized);
        items
    }

    /// Create an empty [`PushArray`] with the given capacity.
    ///
    /// Room for `CAP` elements is set aside here, once; no element is made.
    pub fn new() -> (arr: Self)
        ensures
            arr@ == Seq::<T>::empty(),
            arr@.len() <= CAP,
    {
        Self { initialized: Vec::with_capacity(CAP) }
    }

    /// The number of live elements. It never exceeds the capacity.
    pub fn len(&self) -> (n: usize)
        ensures
            n == self@.len(),
            n <= CAP,
    {
        proof {
            use_type_invariant(self);
        }
        self.initialized.len()
    }

    /// Whether there is no live element.
    pub fn is_empty(&self) -> (b: bool)
        ensures
            b <==> self@.len() == 0,
    {
        self.initialized.len() == 0
    }

    /// Pushes an element to the back of the [`PushArray`] without testing for
    /// room: the caller shows that a slot is free.
    pub fn push_unchecked(&mut self, value: T)
        requires
            old(self)@.len() < CAP,
        ensures
            final(self)@ == old(self)@.push(value),
            final(self)@.len() <= CAP,
    {
        let mut items = self.take_items();
        items.push(value);
        self.initialized = items;
    }

    /// Push an element to the end of this array after making sure
    /// that the array has enough space to hold it.
    ///
    /// A full array refuses the element and stays as it was.
    pub fn push_checked(&mut self, value: T) -> (res: Result<()>)
        ensures
            res == append_outcome(old(self)@, seq![value], CAP as nat),
            final(self)@ == appended(old(self)@, seq![value], CAP as nat),
            final(self)@.len() <= CAP,
    {
        proof {
            use_type_invariant(&*self);
        }
        if self.initialized.len() < CAP {
            self.push_unchecked(value);
            Ok(())
        } else {
            Err(Error::NotEnoughCapacity)
        }
    }

    /// Push an element to the back of this [`PushArray`].
    ///
    /// Pushing onto a full array is a programming error: the caller shows
    /// that a slot is free.
    pub fn push(&mut self, value: T)
        requires
            old(self)@.len() < CAP,
        ensures
            final(self)@ == old(self)@.push(value),
            final(self)@.len() <= CAP,
    {
        self.push_checked(value).expect("overflow in PushArray!")
    }

    /// Push all elements of the given array at the end of the [`PushArray`].
    ///
    /// Either all of them are appended, in order, or, where they do not all
    /// fit, none is and the array stays as it was.
    pub fn push_array<const M: usize>(&mut self, array: [T; M]) -> (res: Result<()>)
        ensures
            res == append_outcome(old(self)@, array@, CAP as nat),
            final(self)@ == appended(old(self)@, array@, CAP as nat),
            final(self)@.len() <= CAP,
    {
        proof {
            use_type_invariant(&*self);
        }
        if M > CAP - self.initialized.len() {
            return Err(Error::NotEnoughCapacity);
        }
        let mut items = self.take_items();
        extend_from_array(&mut items, array);
        self.initialized = items;
        Ok(())
    }

    /// Removes the last element from the `PushArray` and hands it to the
    /// caller. An empty array gives nothing and stays empty.
    pub fn pop(&mut self) -> (value: Option<T>)
        ensures
            value == popped(old(self)@),
            final(self)@ == after_pop(old(self)@),
            final(self)@.len() <= CAP,
    {
        proof {
            use_type_invariant(&*self);
        }
        let mut items = self.take_items();
        let value = items.pop();
        self.initialized = items;
        value
    }

    /// A reference to the element in slot `index`, if that slot is live.
    pub fn get(&self, index: usize) -> (r: Option<&T>)
        ensures
            index < self@.len() ==> r == Some(&self@[index as int]),
            index >= self@.len() ==> r is None,
    {
        if index < self.initialized.len() {
            Some(&self.initialized[index])
        } else {
            None
        }
    }

    /// A mutable reference to the element in slot `index`, if that slot is
    /// live. What is written through it replaces that element and nothing
    /// else.
    pub fn get_mut(&mut self, index: usize) -> (r: Option<&mut T>)
        ensures
            index < old(self)@.len() ==> r is Some && *r->0 == old(self)@[index as int]
                && final(self)@ == old(self)@.update(index as int, *final(r->0)),
            index >= old(self)@.len() ==> r is None && final(self)@ == old(self)@,
            final(self)@.len() == old(self)@.len(),
            final(self)@.len() <= CAP,
    {
        proof {
            use_type_invariant(&*self);
        }
        if index < self.initialized.len() {
            Some(&mut self.initialized[index])
        } else {
            None
        }
    }

    /// Extracts a slice containing the entire array: exactly the live
    /// elements.
    pub fn as_slice(&self) -> (slice: &[T])
        ensures
            slice@ == self@,
            slice@.len() <= CAP,
    {
        proof {
            use_type_invariant(self);
        }
        self.initialized.as_slice()
    }

    /// The live elements, as a slice.
    pub fn initialized(&self) -> (slice: &[T])
        ensures
            slice@ == self@,
            slice@.len() <= CAP,
    {
        self.as_slice()
    }

    /// Extracts a mutable slice containing the entire array. Elements can be
    /// overwritten through it; their number stays what it was.
    pub fn as_mut_slice(&mut self) -> (slice: &mut [T])
        ensures
            slice@ == old(self)@,
            final(self)@ == final(slice)@,
            final(self)@.len() == old(self)@.len(),
            final(self)@.len() <= CAP,
    {
        proof {
            use_type_invariant(&*self);
        }
        live_slice_mut(&mut self.initialized)
    }

    /// Clear the [`PushArray`]. All initialized elements will be dropped.
    pub fn clear(&mut self)
        ensures
            final(self)@ == Seq::<T>::empty(),
    {
        let mut items = self.take_items();
        items.clear();
        self.initialized = items;
    }
}

impl<T, const CAP: usize> IntoIterator for PushArray<T, CAP> {
    type Item = T;

    type IntoIter = std::vec::IntoIter<T>;

    /// Hands the live elements out one by one, first to last, each to the
    /// caller for good.
    fn into_iter(self) -> (iter: std::vec::IntoIter<T>)
        ensures
            IteratorSpec::remaining(&iter) == self@,
            IteratorSpec::decrease(&iter) is Some,
            IteratorSpec::initial_value_relation(&iter, &iter),
    {
        self.initialized.into_iter()
    }
}

impl<T: Copy, const CAP: usize> PushArray<T, CAP> {
    /// Copy the elements from the given slice into the end of the
    /// [`PushArray`].
    ///
    /// Either all of them are appended, in order, or, where they do not all
    /// fit, none is and the array stays as it was.
    pub fn copy_from_slice(&mut self, slice: &[T]) -> (res: Result<()>)
        ensures
            res == append_outcome(old(self)@, slice@, CAP as nat),
            final(self)@ == appended(old(self)@, slice@, CAP as nat),
            final(self)@.len() <= CAP,
    {
        proof {
            use_type_invariant(&*self);
        }
        if slice.len() > CAP - self.initialized.len() {
            return Err(Error::NotEnoughCapacity);
        }
        let mut items = self.take_items();
        let ghost before = items@;
        let mut i: usize = 0;
        while i < slice.len()
            invariant
                i <= slice@.len(),
                items@ == before + slice@.subrange(0, i as int),
            decreases slice@.len() - i,
        {
            items.push(slice[i]);
            i += 1;
        }
        self.initialized = items;
        Ok(())
    }
}

} // verus!
