//! The container itself: storage, the reservation/publication bookkeeping,
//! element access, and growth.

use vstd::prelude::*;

pub mod iter;
pub mod iter_ref;

pub use iter::IntoIter;

verus! {

use vstd::math::min;

/// A [`Vec`]-like sequence container whose capacity is fixed at construction.
///
/// `push` reserves one slot per call; once every slot has been handed out,
/// further pushes are rejected and return the value to the caller, and the
/// capacity spent on a rejected reservation is never recovered.  Capacity
/// changes only through the explicit [`FixedVec::realloc`], which needs
/// exclusive access.
///
/// The abstract value of a `FixedVec` (its view, written `v@`) is the
/// sequence of published elements, in slot order.
#[derive(Debug)]
pub struct FixedVec<T> {
    /// The published prefix: every element that a completed push has made
    /// visible, in slot order.
    storage: Vec<T>,
    /// The reservation counter: how many slots have been handed out, counting
    /// reservations past the capacity, which are permanently forfeited.
    /// Saturates instead of wrapping; once it has passed the capacity its
    /// exact value no longer matters.
    reserved: usize,
    /// The fixed slot count.  Never changes except through `realloc`.
    cap: usize,
}

impl<T> View for FixedVec<T> {
    type V = Seq<T>;

    closed spec fn view(&self) -> Seq<T> {
        self.storage@
    }
}

/// The outcome of one push on the abstract state: the value is appended
/// exactly when a slot is free.
pub open spec fn push_result<T>(s: Seq<T>, cap: nat, value: T) -> Seq<T> {
    if s.len() < cap {
        s.push(value)
    } else {
        s
    }
}

/// The abstract state after pushing every element of `values` in order.
pub open spec fn push_result_all<T>(s: Seq<T>, cap: nat, values: Seq<T>) -> Seq<T>
    decreases values.len(),
{
    if values.len() == 0 {
        s
    } else {
        push_result_all(push_result(s, cap, values.first()), cap, values.drop_first())
    }
}

/// A push never disturbs what is already published: the old contents stay a
/// prefix of the new, whether or not the push was accepted.
pub proof fn lemma_push_preserves_prefix<T>(s: Seq<T>, cap: nat, value: T)
    ensures
        s.is_prefix_of(push_result(s, cap, value)),
{
    if s.len() < cap {
        assert(s =~= push_result(s, cap, value).take(s.len() as int));
    }
}

proof fn lemma_push_result_all_general<T>(s: Seq<T>, cap: nat, values: Seq<T>)
    requires
        s.len() <= cap,
    ensures
        push_result_all(s, cap, values) == s + values.take(
            min(cap - s.len(), values.len() as int),
        ),
    decreases values.len(),
{
    if values.len() == 0 {
        assert(s + values.take(0) =~= s);
    } else if s.len() < cap {
        let stepped = s.push(values.first());
        lemma_push_result_all_general(stepped, cap, values.drop_first());
        let m = min(cap - stepped.len(), values.drop_first().len() as int);
        assert(stepped + values.drop_first().take(m) =~= s + values.take(m + 1));
    } else {
        lemma_push_result_all_general(s, cap, values.drop_first());
        assert(s + values.drop_first().take(0) =~= s + values.take(0));
    }
}

/// Pushing any number of values into an empty container stores exactly the
/// first `min(capacity, #values)` of them, in push order: every accepted
/// value lands in its own slot, none is lost or altered, and every push past
/// the capacity leaves the contents untouched.
pub proof fn lemma_pushes_fill_to_capacity<T>(cap: nat, values: Seq<T>)
    ensures
        push_result_all(Seq::<T>::empty(), cap, values) == values.take(
            min(cap as int, values.len() as int),
        ),
        push_result_all(Seq::<T>::empty(), cap, values).len() == min(
            cap as int,
            values.len() as int,
        ),
{
    lemma_push_result_all_general(Seq::<T>::empty(), cap, values);
    assert(Seq::<T>::empty() + values.take(min(cap as int, values.len() as int)) =~= values.take(
        min(cap as int, values.len() as int),
    ));
}

/// A container with no capacity rejects every push and stays empty.
pub proof fn lemma_zero_capacity_rejects_all<T>(values: Seq<T>)
    ensures
        push_result_all(Seq::<T>::empty(), 0, values) == Seq::<T>::empty(),
{
    lemma_pushes_fill_to_capacity(0, values);
    assert(values.take(0) =~= Seq::<T>::empty());
}

impl<T> FixedVec<T> {
    /// Internal consistency: the published length never exceeds the capacity
    /// or the reservation counter, and the reservation counter runs ahead of
    /// the published length only once the container is full.
    pub closed spec fn wf(&self) -> bool {
        &&& self.storage@.len() <= self.cap
        &&& self.storage@.len() <= self.reserved
        &&& self.reserved != self.storage@.len() ==> self.storage@.len() == self.cap
    }

    /// The fixed capacity, as a spec-level value.
    pub closed spec fn spec_capacity(&self) -> usize {
        self.cap
    }

    /// Creates an empty container with room for exactly `capacity` elements.
    ///
    /// The storage is allocated eagerly; running out of memory aborts the
    /// process, as does a capacity whose storage size cannot be represented.
    pub fn new(capacity: usize) -> (v: Self)
        ensures
            v.wf(),
            v@ == Seq::<T>::empty(),
            v.capacity() == capacity,
    {
        Self { storage: Vec::with_capacity(capacity), reserved: 0, cap: capacity }
    }

    /// The published length: how many elements are visible to readers.
    pub fn len(&self) -> (n: usize)
        ensures
            n == self@.len(),
    {
        self.storage.len()
    }

    /// The fixed capacity.
    #[verifier::when_used_as_spec(spec_capacity)]
    pub fn capacity(&self) -> (c: usize)
        ensures
            c == self.spec_capacity(),
    {
        self.cap
    }

    /// Appends `value` if a slot is free, and otherwise returns it unchanged.
    ///
    /// Each call consumes one reservation; a reservation made once the
    /// container is full is forfeited and never rolled back.  A successful
    /// push extends the published prefix by exactly one element and touches
    /// nothing before it.
    pub fn push(&mut self, value: T) -> (result: Result<(), T>)
        requires
            old(self).wf(),
        ensures
            final(self).wf(),
            final(self).capacity() == old(self).capacity(),
            final(self)@ == push_result(old(self)@, old(self).capacity() as nat, value),
            old(self)@.len() < old(self).capacity() ==> result is Ok,
            old(self)@.len() >= old(self).capacity() ==> result == Err::<(), T>(value),
            old(self)@.is_prefix_of(final(self)@),
    {
        let idx = self.reserved;
        self.reserved = if idx < usize::MAX { idx + 1 } else { idx };
        if idx < self.cap {
            self.storage.push(value);
            Ok(())
        } else {
            Err(value)
        }
    }

    /// A shared reference to the element at `index`, or `None` once `index`
    /// reaches the published length.  Never blocks and never fails otherwise.
    pub fn get(&self, index: usize) -> (element: Option<&T>)
        ensures
            index < self@.len() ==> element is Some && *element.unwrap() == self@[index as int],
            index >= self@.len() ==> element is None,
    {
        if index < self.storage.len() {
            Some(&self.storage[index])
        } else {
            None
        }
    }

    /// A mutable reference to the element at `index`, or `None` once `index`
    /// reaches the published length.  Needs exclusive access: no reader or
    /// pusher can share the container while the reference is live.
    pub fn get_mut(&mut self, index: usize) -> (element: Option<&mut T>)
        requires
            old(self).wf(),
        ensures
            index < old(self)@.len() ==> element is Some
                && *element.unwrap() == old(self)@[index as int]
                && final(self)@ == old(self)@.update(index as int, *final(element.unwrap()))
                && final(self).capacity() == old(self).capacity()
                && final(self).wf(),
            index >= old(self)@.len() ==> element is None && *final(self) == *old(self),
    {
        if index < self.storage.len() {
            Some(&mut self.storage[index])
        } else {
            None
        }
    }

    /// The whole published prefix as a slice.
    pub fn as_slice(&self) -> (elements: &[T])
        ensures
            elements@ == self@,
    {
        self.storage.as_slice()
    }

    /// The whole published prefix as a mutable slice.  Needs exclusive
    /// access for the lifetime of the borrow.
    ///
    /// Writing through the slice cannot change its length, so the container
    /// stays well-formed; the conditional clause lets a caller conclude that
    /// from whatever slice operations it performed.
    pub fn as_mut_slice(&mut self) -> (elements: &mut [T])
        requires
            old(self).wf(),
        ensures
            elements@ == old(self)@,
            final(self)@ == final(elements)@,
            final(self).capacity() == old(self).capacity(),
            final(elements)@.len() == old(self)@.len() ==> final(self).wf(),
    {
        self.storage.as_mut_slice()
    }

    /// Replaces the storage with one twice the size (one slot from zero),
    /// carrying every published element over and winning back the capacity
    /// that forfeited reservations had spent.  Needs exclusive access.
    pub fn realloc(&mut self)
        requires
            old(self).wf(),
            old(self).capacity() <= usize::MAX / 2,
        ensures
            final(self).wf(),
            final(self)@ == old(self)@,
            old(self).capacity() == 0 ==> final(self).capacity() == 1,
            old(self).capacity() > 0 ==> final(self).capacity() == 2 * old(self).capacity(),
    {
        let new_cap: usize = if self.cap == 0 { 1 } else { self.cap * 2 };
        let len = self.storage.len();
        self.storage.reserve(new_cap - len);
        self.reserved = len;
        self.cap = new_cap;
    }

    /// Builds a container that holds exactly `values`, with capacity for just
    /// those elements.
    pub fn from_vec(values: Vec<T>) -> (v: Self)
        ensures
            v.wf(),
            v@ == values@,
            v.capacity() == values@.len(),
    {
        let ghost all: Seq<T> = values@;
        let mut values = values;
        let mut v = Self::new(values.len());
        while values.len() > 0
            invariant
                v.wf(),
                v.capacity() == all.len(),
                v@ + values@ == all,
            decreases values.len(),
        {
            let ghost before = v@;
            let ghost pending = values@;
            let item = values.remove(0);
            let _ = v.push(item);
            proof {
                assert(before.push(item) + pending.drop_first() =~= before + pending);
            }
        }
        proof {
            assert(v@ + values@ =~= v@);
        }
        v
    }

    /// Appends every element of `values` in order, growing the container
    /// through `realloc` whenever a push is rejected for want of capacity.
    /// Needs exclusive access.
    pub fn extend(&mut self, values: Vec<T>)
        requires
            old(self).wf(),
            old(self)@.len() + values@.len() <= usize::MAX / 2,
        ensures
            final(self).wf(),
            final(self)@ == old(self)@ + values@,
            final(self).capacity() >= final(self)@.len(),
            old(self).capacity() >= old(self)@.len() + values@.len()
                ==> final(self).capacity() == old(self).capacity(),
    {
        let ghost all: Seq<T> = values@;
        let mut values = values;
        while values.len() > 0
            invariant
                self.wf(),
                old(self)@ + all == self@ + values@,
                self@.len() + values@.len() == old(self)@.len() + all.len(),
                old(self)@.len() + all.len() <= usize::MAX / 2,
                old(self).capacity() >= old(self)@.len() + all.len()
                    ==> self.capacity() == old(self).capacity(),
            decreases values.len(),
        {
            let ghost before = self@;
            let ghost pending = values@;
            let item = values.remove(0);
            match self.push(item) {
                Ok(()) => {
                    proof {
                        assert(before.push(pending.first()) + pending.drop_first()
                            =~= before + pending);
                    }
                }
                Err(item) => {
                    // The container is full; double the capacity and retry.
                    // The retried push cannot be rejected again.
                    self.realloc();
                    let _ = self.push(item);
                    proof {
                        assert(before.push(pending.first()) + pending.drop_first()
                            =~= before + pending);
                    }
                }
            }
        }
        proof {
            assert(self@ + values@ =~= self@);
            assert(old(self)@ + all == self@);
        }
    }

    /// Consumes the container and turns it into an owning iterator over the
    /// published elements.  Ownership of the storage moves to the iterator,
    /// which from then on is alone responsible for dropping what is never
    /// yielded.
    pub fn into_iter(self) -> (it: IntoIter<T>)
        ensures
            it.wf(),
            it@ == self@,
            it.original() == self@,
            it.yielded_front() == Seq::<T>::empty(),
            it.yielded_back() == Seq::<T>::empty(),
    {
        let FixedVec { storage, .. } = self;
        IntoIter::from_elements(storage)
    }

    /// Borrows the container and iterates over references to every element
    /// published at the time of the call.
    pub fn iter(&self) -> (it: iter_ref::IntoIter<'_, T>)
        ensures
            it.wf(),
            it@ == self@,
    {
        iter_ref::IntoIter::new(self)
    }
}

impl<T: Clone> Clone for FixedVec<T> {
    /// Deep copy: a fresh container of the same capacity whose slots hold a
    /// clone of every published element.  The copy owns its storage outright,
    /// so dropping or mutating either container never affects the other.
    fn clone(&self) -> (other: Self)
        ensures
            other@.len() == self@.len(),
            other.capacity() == self.capacity(),
            forall|i: int| #![auto] 0 <= i < self@.len() ==> cloned::<T>(self@[i], other@[i]),
            self.wf() ==> other.wf(),
    {
        let storage = self.storage.clone();
        let reserved = storage.len();
        FixedVec { storage, reserved, cap: self.cap }
    }
}

impl<T> Default for FixedVec<T> {
    /// An empty container with a single slot, the same as `FixedVec::new(1)`.
    fn default() -> (v: Self)
        ensures
            v.wf(),
            v@ == Seq::<T>::empty(),
            v.capacity() == 1,
    {
        Self::new(1)
    }
}

} // verus!
