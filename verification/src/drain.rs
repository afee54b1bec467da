//! The extractor returned by [`crate::StackVec::drain`]: it owns the
//! elements taken out of the drained range and hands them to the caller
//! one at a time, from either end.

use vstd::prelude::*;

verus! {

/// A cursor over the elements extracted from a drained range.
///
/// Its view is the sequence of elements not yet yielded; `next` takes
/// them from the front, `next_back` from the back.  Elements never
/// yielded are dropped with the cursor.
pub struct Drain<T> {
    items: Vec<T>,
}

impl<T> View for Drain<T> {
    type V = Seq<T>;

    closed spec fn view(&self) -> Seq<T> {
        self.items@
    }
}

impl<T> Drain<T> {
    /// Creates a cursor that will yield the elements of `items` in order.
    pub fn new(items: Vec<T>) -> (r: Self)
        ensures
            r@ == items@,
    {
        Drain { items }
    }

    /// Yields the next not-yet-yielded element from the front of the
    /// remaining range, or `None` when the range is exhausted.
    pub fn next(&mut self) -> (r: Option<T>)
        ensures
            old(self)@.len() > 0 ==> r == Some(old(self)@.first()) && final(self)@ == old(
                self,
            )@.drop_first(),
            old(self)@.len() == 0 ==> r == None::<T> && final(self)@ == old(self)@,
    {
        if self.items.len() == 0 {
            None
        } else {
            Some(self.items.remove(0))
        }
    }

    /// Yields the next not-yet-yielded element from the back of the
    /// remaining range, or `None` when the range is exhausted.
    pub fn next_back(&mut self) -> (r: Option<T>)
        ensures
            old(self)@.len() > 0 ==> r == Some(old(self)@.last()) && final(self)@ == old(
                self,
            )@.drop_last(),
            old(self)@.len() == 0 ==> r == None::<T> && final(self)@ == old(self)@,
    {
        self.items.pop()
    }

    /// Returns the exact count of elements not yet yielded.
    pub fn len(&self) -> (r: usize)
        ensures
            r == self@.len(),
    {
        self.items.len()
    }

    /// Returns the remaining count as an iterator-style size hint: the
    /// lower and upper bound both equal the exact remaining count.
    pub fn size_hint(&self) -> (r: (usize, Option<usize>))
        ensures
            r.0 == self@.len(),
            r.1 == Some(self@.len() as usize),
    {
        (self.items.len(), Some(self.items.len()))
    }
}

} // verus!
