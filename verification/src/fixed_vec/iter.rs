//! The owning iterator: consumes a [`FixedVec`] and moves its published
//! elements out one at a time, from either end.

use vstd::prelude::*;

verus! {

/// An iterator that owns the elements of a consumed [`FixedVec`] and hands
/// them out by value.
///
/// The not-yet-yielded elements form a shrinking interval of the original
/// sequence: `next` takes from the front, `next_back` from the back, and the
/// two may interleave freely.  Each element is moved out exactly once, and
/// whatever is never yielded is dropped exactly once when the iterator goes
/// out of scope, along with the storage.
///
/// The abstract value of the iterator (its view, written `it@`) is the
/// sequence of elements still pending, in slot order.
///
/// [`FixedVec`]: crate::FixedVec
pub struct IntoIter<T> {
    /// The pending elements, in slot order.
    remaining: Vec<T>,
    /// Everything already yielded from the front, in yield order.
    front: Ghost<Seq<T>>,
    /// Everything already yielded from the back, in slot order, so the
    /// element yielded last stands first.
    back: Ghost<Seq<T>>,
    /// The full sequence the iterator started from.
    full: Ghost<Seq<T>>,
}

impl<T> View for IntoIter<T> {
    type V = Seq<T>;

    closed spec fn view(&self) -> Seq<T> {
        self.remaining@
    }
}

impl<T> IntoIter<T> {
    /// The elements yielded from the front so far, in the order they came.
    pub closed spec fn yielded_front(&self) -> Seq<T> {
        self.front@
    }

    /// The elements yielded from the back so far, in slot order.
    pub closed spec fn yielded_back(&self) -> Seq<T> {
        self.back@
    }

    /// The sequence the iterator was created from.
    pub closed spec fn original(&self) -> Seq<T> {
        self.full@
    }

    /// The iterator's bookkeeping invariant: front yields, pending elements
    /// and back yields partition the original sequence, in order.
    pub closed spec fn wf(&self) -> bool {
        self.full@ == self.front@ + self.remaining@ + self.back@
    }

    /// Wraps the published elements of a consumed container.
    pub(crate) fn from_elements(elements: Vec<T>) -> (it: Self)
        ensures
            it.wf(),
            it@ == elements@,
            it.original() == elements@,
            it.yielded_front() == Seq::<T>::empty(),
            it.yielded_back() == Seq::<T>::empty(),
    {
        let ghost full: Seq<T> = elements@;
        let it = IntoIter {
            remaining: elements,
            front: Ghost(Seq::empty()),
            back: Ghost(Seq::empty()),
            full: Ghost(full),
        };
        proof {
            assert(full =~= Seq::<T>::empty() + full + Seq::<T>::empty());
        }
        it
    }

    /// Moves the first pending element out, or returns `None` once the two
    /// ends have met.
    pub fn next(&mut self) -> (element: Option<T>)
        requires
            old(self).wf(),
        ensures
            final(self).wf(),
            final(self).original() == old(self).original(),
            final(self).yielded_back() == old(self).yielded_back(),
            old(self)@.len() == 0 ==> element is None && *final(self) == *old(self),
            old(self)@.len() > 0 ==> element == Some(old(self)@.first())
                && final(self)@ == old(self)@.drop_first()
                && final(self).yielded_front() == old(self).yielded_front().push(
                old(self)@.first(),
            ),
    {
        if self.remaining.len() == 0 {
            None
        } else {
            let ghost pending = self.remaining@;
            let item = self.remaining.remove(0);
            self.front = Ghost(self.front@.push(item));
            proof {
                assert(old(self).front@ + pending =~= self.front@ + pending.drop_first());
                assert(pending.remove(0) =~= pending.drop_first());
            }
            Some(item)
        }
    }

    /// Moves the last pending element out, or returns `None` once the two
    /// ends have met.
    pub fn next_back(&mut self) -> (element: Option<T>)
        requires
            old(self).wf(),
        ensures
            final(self).wf(),
            final(self).original() == old(self).original(),
            final(self).yielded_front() == old(self).yielded_front(),
            old(self)@.len() == 0 ==> element is None && *final(self) == *old(self),
            old(self)@.len() > 0 ==> element == Some(old(self)@.last())
                && final(self)@ == old(self)@.drop_last()
                && final(self).yielded_back() == seq![old(self)@.last()]
                + old(self).yielded_back(),
    {
        if self.remaining.len() == 0 {
            None
        } else {
            let ghost pending = self.remaining@;
            let item = match self.remaining.pop() {
                Some(item) => item,
                None => unreached(),
            };
            self.back = Ghost(seq![item] + self.back@);
            proof {
                assert(self.remaining@ =~= pending.drop_last());
                assert(self.front@ + pending + old(self).back@ =~= self.front@
                    + pending.drop_last() + self.back@);
            }
            Some(item)
        }
    }

    /// How many elements are still pending: the exact count, reported as
    /// both the lower and the upper bound.
    pub fn size_hint(&self) -> (hint: (usize, Option<usize>))
        ensures
            hint.0 == self@.len(),
            hint.1 == Some(hint.0),
    {
        (self.remaining.len(), Some(self.remaining.len()))
    }

    /// Consumes the iterator and reports how many elements were pending.
    pub fn count(self) -> (n: usize)
        ensures
            n == self@.len(),
    {
        self.remaining.len()
    }

    /// Consumes the iterator and moves out the last pending element, if any.
    pub fn last(self) -> (element: Option<T>)
        requires
            self.wf(),
        ensures
            self@.len() == 0 ==> element is None,
            self@.len() > 0 ==> element == Some(self@.last()),
    {
        let mut it = self;
        it.next_back()
    }
}

/// However forward and backward consumption were interleaved, the front
/// yields, the pending elements and the back yields always reassemble, in
/// that order, into exactly the original sequence: nothing is lost, nothing
/// is yielded twice, nothing moves to another slot.
pub proof fn lemma_reassemble<T>(it: &IntoIter<T>)
    requires
        it.wf(),
    ensures
        it.original() == it.yielded_front() + it@ + it.yielded_back(),
{
}

} // verus!
