//! A growable array with a fixed capacity bound, used throughout the
//! engine for its per-frame stacks and pools so that a frame never
//! allocates without bound.

use vstd::prelude::*;

verus! {

/// A vector that never holds more than `N` items.
///
/// Pushing past the capacity is a structural error on the caller's side
/// (the engine's stacks mirror the nesting depth of the declared UI), so
/// [`ConstVec::push`] demands free space rather than failing at run time.
pub struct ConstVec<T, const N: usize> {
    items: Vec<T>,
}

impl<T, const N: usize> View for ConstVec<T, N> {
    type V = Seq<T>;

    closed spec fn view(&self) -> Seq<T> {
        self.items@
    }
}

impl<T, const N: usize> ConstVec<T, N> {
    /// The capacity bound always holds; it is part of the type's meaning.
    pub open spec fn wf(&self) -> bool {
        self@.len() <= N
    }

    /// An empty vector.
    pub fn new() -> (r: ConstVec<T, N>)
        ensures
            r@ == Seq::<T>::empty(),
            r.wf(),
    {
        ConstVec { items: Vec::new() }
    }

    /// Appends an item; the caller must know there is room.
    pub fn push(&mut self, item: T)
        requires
            old(self).wf(),
            old(self)@.len() < N,
        ensures
            final(self)@ == old(self)@.push(item),
            final(self).wf(),
    {
        self.items.push(item);
    }

    /// Removes and returns the last item, if any.
    pub fn pop(&mut self) -> (r: Option<T>)
        requires
            old(self).wf(),
        ensures
            final(self).wf(),
            old(self)@.len() == 0 ==> r is None && final(self)@ == old(self)@,
            old(self)@.len() > 0 ==> r == Some(old(self)@.last()) && final(self)@ == old(
                self,
            )@.drop_last(),
    {
        self.items.pop()
    }

    /// Empties the vector.
    pub fn clear(&mut self)
        ensures
            final(self)@ == Seq::<T>::empty(),
            final(self).wf(),
    {
        self.items.clear();
    }

    /// The number of items held.
    pub fn len(&self) -> (r: usize)
        ensures
            r == self@.len(),
    {
        self.items.len()
    }

    /// The capacity bound `N`.
    pub fn capacity(&self) -> (r: usize)
        ensures
            r == N,
    {
        N
    }

    /// How many more items fit.
    pub fn free_space(&self) -> (r: usize)
        requires
            self.wf(),
        ensures
            r == N - self@.len(),
    {
        N - self.items.len()
    }

    /// A reference to the last item, if any.
    pub fn last(&self) -> (r: Option<&T>)
        ensures
            self@.len() == 0 ==> r is None,
            self@.len() > 0 ==> r == Some(&self@.last()),
    {
        if self.items.len() == 0 {
            None
        } else {
            Some(&self.items[self.items.len() - 1])
        }
    }

    /// A reference to the first item, if any.
    pub fn first(&self) -> (r: Option<&T>)
        ensures
            self@.len() == 0 ==> r is None,
            self@.len() > 0 ==> r == Some(&self@[0]),
    {
        if self.items.len() == 0 {
            None
        } else {
            Some(&self.items[0])
        }
    }

    /// A reference to the item at `index`.
    pub fn get(&self, index: usize) -> (r: &T)
        requires
            index < self@.len(),
        ensures
            *r == self@[index as int],
    {
        &self.items[index]
    }

    /// A mutable reference to the item at `index`: the vector ends up
    /// holding whatever the caller leaves behind the reference.
    pub fn at_mut(&mut self, index: usize) -> (r: &mut T)
        requires
            old(self).wf(),
            index < old(self)@.len(),
        ensures
            *r == old(self)@[index as int],
            final(self)@ == old(self)@.update(index as int, *final(r)),
            final(self).wf(),
    {
        &mut self.items[index]
    }

    /// Replaces the item at `index`.
    pub fn set(&mut self, index: usize, item: T)
        requires
            old(self).wf(),
            index < old(self)@.len(),
        ensures
            final(self)@ == old(self)@.update(index as int, item),
            final(self).wf(),
    {
        self.items[index] = item;
    }
}

impl<T: Copy, const N: usize> ConstVec<T, N> {
    /// A copy of the item at `index`.
    pub fn get_copy(&self, index: usize) -> (r: T)
        requires
            index < self@.len(),
        ensures
            r == self@[index as int],
    {
        self.items[index]
    }

    /// A copy of the last item; the caller must know the vector is
    /// non-empty.
    pub fn last_copy(&self) -> (r: T)
        requires
            self@.len() > 0,
        ensures
            r == self@.last(),
    {
        self.items[self.items.len() - 1]
    }

    /// Fills the vector to its capacity with copies of `value`.
    pub fn init_default(&mut self, value: T)
        ensures
            final(self)@ == Seq::<T>::new(N as nat, |i: int| value),
            final(self).wf(),
    {
        self.items.clear();
        let mut i: usize = 0;
        while i < N
            invariant
                i <= N,
                self.items@ == Seq::<T>::new(i as nat, |j: int| value),
            decreases N - i,
        {
            self.items.push(value);
            i = i + 1;
        }
        proof {
            assert(self.items@ =~= Seq::<T>::new(N as nat, |i: int| value));
        }
    }
}

} // verus!
