//! The standard conformances of a bounded sequence, each built on its public
//! read and write surface.

use core::hash::Hash;
use core::hash::Hasher;
use core::ops::Deref;
use core::ops::DerefMut;
use vstd::prelude::*;
use vstd::std_specs::iter::IteratorSpec;

use crate::push_array::PushArray;

verus! {

/// Specifies `<[T] as Hash>::hash`. Nothing is claimed of what it feeds to
/// the hasher.
pub assume_specification<A: std::hash::Hash, H: std::hash::Hasher>[ <[A] as std::hash::Hash>::hash ](
    slice: &[A],
    state: &mut H,
);

/// Specifies `<usize as Hash>::hash`. Nothing is claimed of what it feeds to
/// the hasher.
pub assume_specification<H: std::hash::Hasher>[ <usize as std::hash::Hash>::hash ](
    n: &usize,
    state: &mut H,
);

impl<T: Clone, const CAP: usize> Clone for PushArray<T, CAP> {
    /// A new array of the same capacity that holds, in the same order, a
    /// clone of each live element.
    fn clone(&self) -> (res: Self)
        ensures
            res@.len() == self@.len(),
            res@.len() <= CAP,
            forall|i: int| 0 <= i < self@.len() ==> cloned::<T>(#[trigger] self@[i], res@[i]),
    {
        let live = self.as_slice();
        let mut res = Self::new();
        let mut i: usize = 0;
        while i < live.len()
            invariant
                live@ == self@,
                live@.len() <= CAP,
                i <= live@.len(),
                res@.len() == i,
                forall|k: int| 0 <= k < i ==> cloned::<T>(#[trigger] live@[k], res@[k]),
            decreases live@.len() - i,
        {
            res.push(live[i].clone());
            i += 1;
        }
        res
    }
}

impl<T: Hash, const CAP: usize> Hash for PushArray<T, CAP> {
    /// Feeds the live elements to the hasher, then their number.
    fn hash<H: Hasher>(&self, state: &mut H) {
        self.as_slice().hash(state);
        self.len().hash(state);
    }
}

impl<T, const CAP: usize> AsRef<[T]> for PushArray<T, CAP> {
    fn as_ref(&self) -> (slice: &[T])
        ensures
            slice@ == self@,
    {
        self.as_slice()
    }
}

impl<T, const CAP: usize> Deref for PushArray<T, CAP> {
    type Target = [T];

    fn deref(&self) -> (slice: &[T])
        ensures
            slice@ == self@,
    {
        self.as_slice()
    }
}

impl<T, const CAP: usize> DerefMut for PushArray<T, CAP> {
    fn deref_mut(&mut self) -> (slice: &mut [T])
        ensures
            slice@ == old(self)@,
            final(self)@ == final(slice)@,
            final(self)@.len() == old(self)@.len(),
            final(self)@.len() <= CAP,
    {
        self.as_mut_slice()
    }
}

impl<T, const CAP: usize> PushArray<T, CAP> {
    /// Builds an array from what an iterator yields, first to last.
    ///
    /// Yielding more than the capacity holds is a programming error: the
    /// caller shows that the items fit.
    pub fn from_iter<I: Iterator<Item = T>>(iter: I) -> (arr: Self)
        requires
            iter.obeys_prophetic_iter_laws(),
            iter.remaining().len() <= CAP,
        ensures
            arr@ == iter.remaining(),
    {
        let mut arr = Self::new();
        let mut rest = iter;
        loop
            invariant
                rest.obeys_prophetic_iter_laws(),
                arr@ + rest.remaining() == iter.remaining(),
                iter.remaining().len() <= CAP,
            ensures
                arr@ == iter.remaining(),
            decreases CAP - arr@.len(),
        {
            match rest.next() {
                Some(item) => {
                    arr.push(item);
                },
                None => {
                    break ;
                },
            }
        }
        arr
    }
}

} // verus!
