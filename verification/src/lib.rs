//! A small growable array container.
//!
//! `MiniVec<T>` owns a contiguous buffer of element slots, of which the first
//! `size` hold live elements. Appending is amortized constant time: when the
//! buffer is full its capacity doubles (starting at 2 slots), so the capacity
//! follows the schedule 0, 2, 4, 8, ... Removal at a position compacts the
//! gap by shifting the later elements down one slot, preserving their order.
//! Out-of-range access is excluded by precondition: no operation of this
//! library clamps, wraps, or silently resizes on a bad index.

use vstd::prelude::*;

verus! {

/// True when `n` is a power of two.
pub open spec fn is_pow2(n: nat) -> bool
    decreases n,
{
    if n == 0 {
        false
    } else if n == 1 {
        true
    } else {
        n % 2 == 0 && is_pow2(n / 2)
    }
}

/// The capacity one growth step yields: the first allocation holds 2 slots,
/// and every later growth doubles the buffer.
pub open spec fn grown_capacity(cap: nat) -> nat {
    if cap == 0 {
        2
    } else {
        2 * cap
    }
}

/// The capacity after an append, given the capacity and element count before
/// it: growth triggers exactly when the buffer is full.
pub open spec fn capacity_after_push(cap: nat, len: nat) -> nat {
    if len < cap {
        cap
    } else {
        grown_capacity(cap)
    }
}

/// The doubling schedule that a container built by appends alone follows:
/// no allocation while empty, and otherwise the smallest power of two that
/// is at least 2 and holds all `len` elements.
pub open spec fn on_doubling_schedule(cap: nat, len: nat) -> bool {
    if len == 0 {
        cap == 0
    } else {
        &&& is_pow2(cap)
        &&& 2 <= cap
        &&& len <= cap
        &&& cap == 2 || cap < 2 * len
    }
}

/// A power of two doubled is again a power of two.
proof fn lemma_pow2_double(n: nat)
    requires
        is_pow2(n),
    ensures
        is_pow2(2 * n),
{
}

/// Law: an append keeps the capacity on the doubling schedule. Together with
/// `MiniVec::new`, which starts empty with no allocation, this shows by
/// induction that after any sequence of appends from an empty container the
/// capacity is the smallest power of two (at least 2) holding all elements,
/// following 0, 2, 4, 8, ...
pub proof fn lemma_push_keeps_doubling_schedule(cap: nat, len: nat)
    requires
        on_doubling_schedule(cap, len),
    ensures
        on_doubling_schedule(capacity_after_push(cap, len), len + 1),
{
    if len == 0 {
        reveal_with_fuel(is_pow2, 3);
    } else if len >= cap {
        lemma_pow2_double(cap);
    }
}

/// Law: appending `v` and then removing at the last index hands `v` back and
/// restores the earlier contents exactly, element count included. In the
/// contracts of `MiniVec::push` and `MiniVec::remove`, the appended sequence
/// is `s.push(v)`, the removal position is `s.len()`, the removed value is
/// `s.push(v)[s.len()]`, and what remains is `s.push(v).remove(s.len())`.
pub proof fn lemma_push_remove_round_trip<T>(s: Seq<T>, v: T)
    ensures
        s.push(v)[s.len() as int] == v,
        s.push(v).remove(s.len() as int) == s,
{
    assert(s.push(v).remove(s.len() as int) =~= s);
}

/// A growable array: `data` holds the live elements in order, and `capacity`
/// is the number of slots the container accounts for, kept on the doubling
/// schedule by growth and never shrunk by removal.
pub struct MiniVec<T> {
    capacity: usize,
    data: Vec<T>,
}

impl<T> View for MiniVec<T> {
    type V = Seq<T>;

    closed spec fn view(&self) -> Seq<T> {
        self.data@
    }
}

impl<T> MiniVec<T> {
    /// The capacity, for use in contracts.
    pub closed spec fn spec_capacity(&self) -> nat {
        self.capacity as nat
    }

    /// Internal consistency: the live elements fit in the accounted slots,
    /// and a nonzero capacity is a power of two of at least 2.
    pub closed spec fn well_formed(&self) -> bool {
        &&& self@.len() <= self.spec_capacity()
        &&& self.spec_capacity() != 0 ==> is_pow2(self.spec_capacity()) && 2
            <= self.spec_capacity()
    }

    /// Creates an empty container. No buffer is allocated until the first
    /// element is appended.
    pub fn new() -> (v: Self)
        ensures
            v@ == Seq::<T>::empty(),
            v.spec_capacity() == 0,
            v.well_formed(),
            on_doubling_schedule(v.spec_capacity(), v@.len()),
    {
        MiniVec { capacity: 0, data: Vec::new() }
    }

    /// Returns the number of live elements.
    pub fn size(&self) -> (n: usize)
        ensures
            n == self@.len(),
    {
        self.data.len()
    }

    /// Returns the number of element slots the container accounts for.
    pub fn capacity(&self) -> (c: usize)
        ensures
            c == self.spec_capacity(),
    {
        self.capacity
    }

    /// Grows a full buffer: the first allocation holds 2 slots, any later
    /// growth doubles the capacity. The live elements are untouched. The
    /// allocation itself is made by `Vec::reserve`, which fails the process
    /// rather than hand back an unusable buffer.
    fn grow(&mut self)
        requires
            old(self).well_formed(),
            old(self)@.len() == old(self).spec_capacity(),
            old(self)@.len() < usize::MAX / 2,
        ensures
            final(self)@ == old(self)@,
            final(self).spec_capacity() == grown_capacity(old(self).spec_capacity()),
            final(self).well_formed(),
    {
        let new_capacity: usize = if self.capacity == 0 {
            2
        } else {
            self.capacity * 2
        };
        let additional: usize = new_capacity - self.data.len();
        self.data.reserve(additional);
        self.capacity = new_capacity;
        proof {
            if old(self).spec_capacity() == 0 {
                reveal_with_fuel(is_pow2, 3);
            } else {
                lemma_pow2_double(old(self).spec_capacity());
            }
        }
    }

    /// Appends `new_element` at the end, growing the buffer first when it is
    /// full. The element count rises by exactly one and the new element sits
    /// at the last index.
    pub fn push(&mut self, new_element: T)
        requires
            old(self).well_formed(),
            old(self)@.len() < usize::MAX / 2,
        ensures
            final(self)@ == old(self)@.push(new_element),
            final(self)@.len() == old(self)@.len() + 1,
            final(self)@[old(self)@.len() as int] == new_element,
            final(self).spec_capacity() == capacity_after_push(
                old(self).spec_capacity(),
                old(self)@.len(),
            ),
            final(self).well_formed(),
            on_doubling_schedule(old(self).spec_capacity(), old(self)@.len())
                ==> on_doubling_schedule(final(self).spec_capacity(), final(self)@.len()),
    {
        if self.data.len() == self.capacity {
            self.grow();
        }
        self.data.push(new_element);
    }

    /// Removes and returns the element at position `index`. Every element
    /// after it shifts down one position, keeping the relative order; the
    /// elements before it are untouched; the capacity does not shrink. The
    /// gap is compacted by moving the later elements out, last first, and
    /// moving them back one slot lower.
    #[verifier::loop_isolation(false)]
    pub fn remove(&mut self, index: usize) -> (removed: T)
        requires
            index < old(self)@.len(),
        ensures
            removed == old(self)@[index as int],
            final(self)@ == old(self)@.remove(index as int),
            final(self)@.len() == old(self)@.len() - 1,
            final(self).spec_capacity() == old(self).spec_capacity(),
            forall|i: int| 0 <= i < index ==> final(self)@[i] == old(self)@[i],
            forall|i: int|
                index <= i < final(self)@.len() ==> final(self)@[i] == old(self)@[i + 1],
            old(self).well_formed() ==> final(self).well_formed(),
    {
        let ghost orig: Seq<T> = self.data@;
        let mut tail: Vec<T> = Vec::new();
        while self.data.len() > index + 1
            invariant
                self.capacity == old(self).capacity,
                index + 1 <= self.data@.len(),
                self.data@ == orig.subrange(0, self.data@.len() as int),
                tail@.len() == orig.len() - self.data@.len(),
                forall|i: int|
                    0 <= i < tail@.len() ==> tail@[i] == orig[orig.len() - 1 - i],
            decreases self.data@.len() - index,
        {
            let moved = self.data.pop().unwrap();
            tail.push(moved);
        }
        let removed = self.data.pop().unwrap();
        while tail.len() > 0
            invariant
                self.capacity == old(self).capacity,
                tail@.len() <= orig.len() - 1 - index,
                self.data@.len() == orig.len() - 1 - tail@.len(),
                self.data@ == orig.remove(index as int).subrange(0, self.data@.len() as int),
                forall|i: int|
                    0 <= i < tail@.len() ==> tail@[i] == orig[orig.len() - 1 - i],
            decreases tail@.len(),
        {
            let moved = tail.pop().unwrap();
            self.data.push(moved);
        }
        removed
    }

    /// Returns a reference to the element at position `index`.
    pub fn get(&self, index: usize) -> (element: &T)
        requires
            index < self@.len(),
        ensures
            *element == self@[index as int],
    {
        &self.data[index]
    }

    /// Overwrites the element at position `index` with `new_element`. The
    /// element count and the capacity are unchanged.
    pub fn set(&mut self, index: usize, new_element: T)
        requires
            index < old(self)@.len(),
        ensures
            final(self)@ == old(self)@.update(index as int, new_element),
            final(self)@.len() == old(self)@.len(),
            final(self).spec_capacity() == old(self).spec_capacity(),
            forall|i: int|
                0 <= i < old(self)@.len() && i != index ==> final(self)@[i] == old(self)@[i],
            old(self).well_formed() ==> final(self).well_formed(),
    {
        self.data[index] = new_element;
    }
}

} // verus!
