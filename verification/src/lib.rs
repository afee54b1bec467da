//! A vector-like container backed by storage of a fixed capacity.
//!
//! [`StackVec`] offers push/pop/remove/drain semantics like a growable
//! vector, but its capacity is a compile-time constant: a push past the
//! capacity is refused rather than reallocating.  The view of a container
//! is the sequence of its valid elements, and every operation's contract
//! is stated over that sequence.

use vstd::prelude::*;

mod drain;
mod laws;

pub use drain::Drain;

verus! {

/// A vector-like container that never holds more than `CAP` elements.
///
/// The abstract value of a `StackVec` is the sequence of elements pushed
/// so far, in order; `self@` denotes that sequence.  Two containers
/// compare equal exactly when their valid elements compare equal
/// element-wise, and the ordering is lexicographic over the valid
/// elements; nothing is claimed of those comparisons in contracts.
#[derive(PartialEq, PartialOrd)]
pub struct StackVec<T, const CAP: usize> {
    data: Vec<T>,
}

/// Relies on std's `Vec::from` on an array, which moves the array's
/// elements into a vector in order.
#[verifier::external_body]
fn vec_of_array<T, const N: usize>(arr: [T; N]) -> (r: Vec<T>)
    ensures
        r@ == arr@,
{
    Vec::from(arr)
}

impl<T, const CAP: usize> View for StackVec<T, CAP> {
    type V = Seq<T>;

    closed spec fn view(&self) -> Seq<T> {
        self.data@
    }
}

impl<T, const CAP: usize> StackVec<T, CAP> {
    /// The container's invariant: it never holds more than `CAP` elements.
    pub open spec fn wf(&self) -> bool {
        self@.len() <= CAP
    }

    /// Creates a new empty `StackVec`.
    pub fn new() -> (r: Self)
        ensures
            r@ == Seq::<T>::empty(),
            r.wf(),
    {
        StackVec { data: Vec::new() }
    }

    /// Creates a `StackVec` of length `CAP`, every slot a clone of `val`.
    pub fn filled(val: T) -> (r: Self) where T: Clone
        ensures
            r.wf(),
            r@.len() == CAP,
            forall|i: int| 0 <= i < CAP ==> cloned::<T>(val, #[trigger] r@[i]),
    {
        StackVec { data: vec![val; CAP] }
    }

    /// Creates a `StackVec` of length `CAP`, slot `i` holding the `i`-th
    /// result of invoking `generator`, called exactly `CAP` times in order.
    #[verifier::loop_isolation(false)]
    pub fn generate<F: FnMut() -> T>(generator: F) -> (r: Self)
        requires
            call_requires(generator, ()),
        ensures
            r.wf(),
            r@.len() == CAP,
            forall|i: int| 0 <= i < CAP ==> call_ensures(generator, (), #[trigger] r@[i]),
    {
        let mut g = generator;
        let mut s = Self::new();
        let mut n: usize = 0;
        while n < CAP
            invariant
                s@.len() == n,
                n <= CAP,
                g == generator,
                forall|i: int| 0 <= i < n ==> call_ensures(generator, (), #[trigger] s@[i]),
            decreases CAP - n,
        {
            let v = g();
            s.push_unchecked(v);
            n += 1;
        }
        s
    }

    /// Creates a `StackVec` of length `CAP` that takes ownership of the
    /// elements of `arr`, in order.
    pub fn from_array(arr: [T; CAP]) -> (r: Self)
        ensures
            r.wf(),
            r@ == arr@,
    {
        StackVec { data: vec_of_array(arr) }
    }

    /// Appends `val` at the end of the container.  The caller must have
    /// established that there is room; the bound is not re-checked here.
    pub fn push_unchecked(&mut self, val: T)
        requires
            old(self).wf(),
            old(self)@.len() < CAP,
        ensures
            final(self).wf(),
            final(self)@ == old(self)@.push(val),
    {
        self.data.push(val);
    }

    /// Appends `val` at the end of the container.  Callers must have
    /// pre-validated capacity: a full container is excluded by contract.
    pub fn push(&mut self, val: T)
        requires
            old(self).wf(),
            old(self)@.len() < CAP,
        ensures
            final(self).wf(),
            final(self)@ == old(self)@.push(val),
    {
        self.push_unchecked(val);
    }

    /// Attempts to append `val`: succeeds exactly when the container is
    /// not full, and otherwise returns the rejected value unchanged,
    /// mutating nothing.
    pub fn try_push(&mut self, val: T) -> (r: Result<(), T>)
        requires
            old(self).wf(),
        ensures
            final(self).wf(),
            old(self)@.len() < CAP ==> r == Ok::<(), T>(()) && final(self)@ == old(self)@.push(val),
            old(self)@.len() >= CAP ==> r == Err::<(), T>(val) && final(self)@ == old(self)@,
    {
        if self.data.len() >= CAP {
            Err(val)
        } else {
            self.push_unchecked(val);
            Ok(())
        }
    }

    /// Appends every element of `it`, in order.  Callers must have
    /// pre-validated capacity: an overflowing extension is excluded by
    /// contract.
    pub fn extend_from_iter(&mut self, it: Vec<T>)
        requires
            old(self).wf(),
            old(self)@.len() + it@.len() <= CAP,
        ensures
            final(self).wf(),
            final(self)@ == old(self)@ + it@,
    {
        let mut it = it;
        self.data.append(&mut it);
    }

    /// Appends elements of `it` in order while capacity remains.  When
    /// every element fits, succeeds with nothing left over; the moment
    /// capacity is exhausted with elements still pending, stops and
    /// returns the not-yet-consumed rest of `it` (the element that did
    /// not fit included), leaving the container full.  Elements already
    /// appended stay appended.
    #[verifier::loop_isolation(false)]
    pub fn try_extend_from_iter(&mut self, it: Vec<T>) -> (r: Result<(), Vec<T>>)
        requires
            old(self).wf(),
        ensures
            final(self).wf(),
            old(self)@.len() + it@.len() <= CAP ==> r == Ok::<(), Vec<T>>(()) && final(self)@ == old(
                self,
            )@ + it@,
            old(self)@.len() + it@.len() > CAP ==> {
                &&& r matches Err(rest) && rest@ == it@.skip(CAP - old(self)@.len())
                &&& final(self)@ == old(self)@ + it@.take(CAP - old(self)@.len())
                &&& final(self)@.len() == CAP
            },
    {
        let ghost it0 = it@;
        let mut pending = it;
        loop
            invariant
                self@.len() <= CAP,
                pending@.len() <= it0.len(),
                pending@ == it0.skip(it0.len() - pending@.len()),
                self@ == old(self)@ + it0.take(it0.len() - pending@.len()),
            decreases pending@.len(),
        {
            proof {
                assert(self@.len() == old(self)@.len() + (it0.len() - pending@.len()));
            }
            if pending.len() == 0 {
                proof {
                    assert(it0.take(it0.len() as int) =~= it0);
                }
                return Ok(());
            }
            if self.data.len() >= CAP {
                return Err(pending);
            }
            let v = pending.remove(0);
            self.push_unchecked(v);
            proof {
                let k = it0.len() - pending@.len();
                assert(self@ =~= old(self)@ + it0.take(k));
                assert(pending@ =~= it0.skip(k));
            }
        }
    }

    /// Removes the range `[start, end)` from the container, shifting the
    /// tail left to close the gap, and returns a [`Drain`] that yields
    /// ownership of the removed elements in order.
    pub fn drain(&mut self, start: usize, end: usize) -> (r: Drain<T>)
        requires
            old(self).wf(),
            start <= end,
            end <= old(self)@.len(),
        ensures
            final(self).wf(),
            r@ == old(self)@.subrange(start as int, end as int),
            final(self)@ == old(self)@.subrange(0, start as int) + old(self)@.subrange(
                end as int,
                old(self)@.len() as int,
            ),
            final(self)@.len() == old(self)@.len() - (end - start),
    {
        let mut tail = self.data.split_off(end);
        let removed = self.data.split_off(start);
        self.data.append(&mut tail);
        proof {
            assert(removed@ =~= old(self)@.subrange(start as int, end as int));
            assert(self@ =~= old(self)@.subrange(0, start as int) + old(self)@.subrange(
                end as int,
                old(self)@.len() as int,
            ));
        }
        Drain::new(removed)
    }

    /// Removes the element at index `i` and returns it, shifting every
    /// element after `i` left by one.  The caller must have established
    /// that `i` is in bounds; the bound is not re-checked here.
    pub fn remove_unchecked(&mut self, i: usize) -> (r: T)
        requires
            old(self).wf(),
            i < old(self)@.len(),
        ensures
            final(self).wf(),
            r == old(self)@[i as int],
            final(self)@ == old(self)@.remove(i as int),
    {
        self.data.remove(i)
    }

    /// Removes the element at index `i` and returns it, shifting every
    /// element after `i` left by one and leaving the elements before `i`
    /// untouched.  Returns `None`, mutating nothing, when `i` is out of
    /// bounds.
    pub fn remove(&mut self, i: usize) -> (r: Option<T>)
        requires
            old(self).wf(),
        ensures
            final(self).wf(),
            i < old(self)@.len() ==> {
                &&& r == Some(old(self)@[i as int])
                &&& final(self)@ == old(self)@.remove(i as int)
                &&& final(self)@.len() == old(self)@.len() - 1
                &&& forall|j: int| 0 <= j < i ==> final(self)@[j] == old(self)@[j]
                &&& forall|j: int|
                    i <= j < final(self)@.len() ==> final(self)@[j] == old(self)@[j + 1]
            },
            i >= old(self)@.len() ==> r == None::<T> && final(self)@ == old(self)@,
    {
        if i < self.data.len() {
            proof {
                old(self)@.remove_ensures(i as int);
            }
            Some(self.remove_unchecked(i))
        } else {
            None
        }
    }

    /// Removes the last element and returns it, or returns `None`,
    /// mutating nothing, when the container is empty.
    pub fn pop(&mut self) -> (r: Option<T>)
        requires
            old(self).wf(),
        ensures
            final(self).wf(),
            old(self)@.len() > 0 ==> r == Some(old(self)@.last()) && final(self)@ == old(
                self,
            )@.drop_last(),
            old(self)@.len() == 0 ==> r == None::<T> && final(self)@ == old(self)@,
    {
        self.data.pop()
    }

    /// Returns a read-only view of exactly the valid elements.
    pub fn as_slice(&self) -> (r: &[T])
        ensures
            r@ == self@,
    {
        self.data.as_slice()
    }

    /// Returns an exclusive view of exactly the valid elements; writes
    /// through it become the container's new contents.
    pub fn as_slice_mut(&mut self) -> (r: &mut [T])
        ensures
            r@ == old(self)@,
            final(self)@ == final(r)@,
    {
        self.data.as_mut_slice()
    }

    /// Drops every element and resets the container to empty.
    pub fn clear(&mut self)
        ensures
            final(self)@ == Seq::<T>::empty(),
            final(self).wf(),
    {
        self.data.clear();
    }

    /// Returns the fixed capacity `CAP`.
    pub fn capacity(&self) -> (r: usize)
        ensures
            r == CAP,
    {
        CAP
    }

    /// Returns how many more elements the container can hold.
    pub fn remaining_capacity(&self) -> (r: usize)
        requires
            self.wf(),
        ensures
            r == CAP - self@.len(),
    {
        CAP - self.data.len()
    }

    /// Returns the number of elements currently held.
    pub fn len(&self) -> (r: usize)
        ensures
            r == self@.len(),
    {
        self.data.len()
    }

    /// Returns true if the container holds no element.
    pub fn is_empty(&self) -> (r: bool)
        ensures
            r == (self@.len() == 0),
    {
        self.data.is_empty()
    }

    /// Returns true if no more elements can be pushed.
    pub fn is_full(&self) -> (r: bool)
        ensures
            r == (self@.len() == CAP),
    {
        self.data.len() == CAP
    }
}

impl<T: Clone, const CAP: usize> Clone for StackVec<T, CAP> {
    /// Clone fidelity: the clone has the same length as the original,
    /// and each of its valid slots holds a clone of the original's
    /// element at the same index.
    fn clone(&self) -> (res: Self)
        ensures
            res@.len() == self@.len(),
            forall|i: int| 0 <= i < self@.len() ==> cloned::<T>(self@[i], #[trigger] res@[i]),
            self.wf() ==> res.wf(),
    {
        StackVec { data: self.data.clone() }
    }
}

impl<T, const CAP: usize> Default for StackVec<T, CAP> {
    /// The default container is empty.
    fn default() -> (r: Self)
        ensures
            r@ == Seq::<T>::empty(),
            r.wf(),
    {
        StackVec::new()
    }
}

} // verus!
