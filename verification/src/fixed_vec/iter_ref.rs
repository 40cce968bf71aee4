//! The shared borrowing iterator: yields references to the published
//! elements of a borrowed [`FixedVec`], from either end.

use vstd::prelude::*;

use crate::fixed_vec::FixedVec;

verus! {

/// An iterator over shared references into a borrowed [`FixedVec`].
///
/// It walks the half-open interval of published slots that have not been
/// visited yet; `next` advances the lower end, `next_back` retracts the
/// upper end, and the two may interleave freely.  The container itself is
/// never changed.
///
/// The abstract value of the iterator (its view, written `it@`) is the
/// sequence of elements still pending, in slot order.
pub struct IntoIter<'a, T> {
    /// The borrowed container.
    vec: &'a FixedVec<T>,
    /// The first slot not yet visited from the front.
    start: usize,
    /// One past the last slot not yet visited from the back.
    end: usize,
}

impl<'a, T> View for IntoIter<'a, T> {
    type V = Seq<T>;

    closed spec fn view(&self) -> Seq<T> {
        self.vec@.subrange(self.start as int, self.end as int)
    }
}

impl<'a, T> IntoIter<'a, T> {
    /// The pending interval lies inside the published prefix.
    pub closed spec fn wf(&self) -> bool {
        self.start <= self.end <= self.vec@.len()
    }

    /// The container the iterator reads from.
    pub closed spec fn source(&self) -> &'a FixedVec<T> {
        self.vec
    }

    /// Starts a walk over every published element of `vec`.
    pub fn new(vec: &'a FixedVec<T>) -> (it: Self)
        ensures
            it.wf(),
            it@ == vec@,
            it.source() == vec,
    {
        let it = IntoIter { vec, start: 0, end: vec.len() };
        proof {
            assert(vec@.subrange(0, vec@.len() as int) =~= vec@);
        }
        it
    }

    /// A reference to the first pending element, or `None` once the two ends
    /// have met.
    pub fn next(&mut self) -> (element: Option<&'a T>)
        requires
            old(self).wf(),
        ensures
            final(self).wf(),
            final(self).source() == old(self).source(),
            old(self)@.len() == 0 ==> element is None && *final(self) == *old(self),
            old(self)@.len() > 0 ==> element is Some && *element.unwrap() == old(self)@.first()
                && final(self)@ == old(self)@.drop_first(),
    {
        if self.start == self.end {
            None
        } else {
            let vec: &'a FixedVec<T> = self.vec;
            let element = vec.get(self.start);
            self.start = self.start + 1;
            proof {
                assert(self.vec@.subrange(self.start as int, self.end as int) =~= old(
                    self,
                )@.drop_first());
            }
            element
        }
    }

    /// A reference to the last pending element, or `None` once the two ends
    /// have met.
    pub fn next_back(&mut self) -> (element: Option<&'a T>)
        requires
            old(self).wf(),
        ensures
            final(self).wf(),
            final(self).source() == old(self).source(),
            old(self)@.len() == 0 ==> element is None && *final(self) == *old(self),
            old(self)@.len() > 0 ==> element is Some && *element.unwrap() == old(self)@.last()
                && final(self)@ == old(self)@.drop_last(),
    {
        if self.start == self.end {
            None
        } else {
            let vec: &'a FixedVec<T> = self.vec;
            let element = vec.get(self.end - 1);
            self.end = self.end - 1;
            proof {
                assert(self.vec@.subrange(self.start as int, self.end as int) =~= old(
                    self,
                )@.drop_last());
            }
            element
        }
    }

    /// How many elements are still pending: the exact count, reported as
    /// both the lower and the upper bound.
    pub fn size_hint(&self) -> (hint: (usize, Option<usize>))
        requires
            self.wf(),
        ensures
            hint.0 == self@.len(),
            hint.1 == Some(hint.0),
    {
        (self.end - self.start, Some(self.end - self.start))
    }

    /// Consumes the iterator and reports how many elements were pending.
    pub fn count(self) -> (n: usize)
        requires
            self.wf(),
        ensures
            n == self@.len(),
    {
        self.end - self.start
    }

    /// Consumes the iterator and returns a reference to the last pending
    /// element, if any.
    pub fn last(self) -> (element: Option<&'a T>)
        requires
            self.wf(),
        ensures
            self@.len() == 0 ==> element is None,
            self@.len() > 0 ==> element is Some && *element.unwrap() == self@.last(),
    {
        let mut it = self;
        it.next_back()
    }
}

} // verus!
