//! The identity-keyed persistence pools.
//!
//! A pool is a fixed set of slots, each holding an identity and the frame
//! on which it was last touched. Looking an identity up is a linear scan
//! (the pools are small and bounded). Claiming a slot for a new identity
//! evicts the least-recently-touched slot, and only one touched strictly
//! before the current frame: if every slot was touched this frame, the
//! claim fails and the caller degrades gracefully (the container or
//! treenode simply does not appear this frame).

use vstd::prelude::*;

use crate::const_vec::ConstVec;
use crate::id::Id;
use crate::{Context, PoolItem, TextSizeHandler};

verus! {

impl<const N: usize> ConstVec<PoolItem, N> {
    /// The slot holding `id`, if any: the first match of a linear scan.
    pub fn pool_find(&self, id: Id) -> (r: Option<usize>)
        ensures
            match r {
                Some(i) => i < self@.len() && self@[i as int].id == id && (forall|j: int|
                    0 <= j < i ==> self@[j].id != id),
                None => forall|j: int| 0 <= j < self@.len() ==> self@[j].id != id,
            },
    {
        let n = self.len();
        let mut i: usize = 0;
        while i < n
            invariant
                n == self@.len(),
                i <= n,
                forall|j: int| 0 <= j < i ==> self@[j].id != id,
            decreases n - i,
        {
            if self.get(i).id.0 == id.0 {
                return Some(i);
            }
            i = i + 1;
        }
        None
    }

    /// Claims a slot for `id`: evicts the slot with the smallest
    /// last-touched frame strictly below `frame` (the earliest such slot
    /// on a tie), stamping it with `id` and `frame`. Returns no slot, and
    /// changes nothing, when every slot was already touched this frame.
    pub fn pool_init(&mut self, id: Id, frame: u64) -> (r: Option<usize>)
        requires
            old(self).wf(),
        ensures
            final(self).wf(),
            final(self)@.len() == old(self)@.len(),
            match r {
                Some(i) => {
                    &&& i < old(self)@.len()
                    &&& old(self)@[i as int].last_update < frame
                    &&& (forall|j: int|
                        0 <= j < old(self)@.len() ==> old(self)@[j].last_update >= old(self)@[i as int].last_update)
                    &&& (forall|j: int|
                        0 <= j < i ==> old(self)@[j].last_update > old(self)@[i as int].last_update)
                    &&& final(self)@ == old(self)@.update(
                        i as int,
                        PoolItem { id, last_update: frame },
                    )
                },
                None => (forall|j: int|
                    0 <= j < old(self)@.len() ==> old(self)@[j].last_update >= frame) && *final(self) == *old(self),
            },
    {
        let n = self.len();
        let mut best: Option<usize> = None;
        let mut f: u64 = frame;
        let mut i: usize = 0;
        while i < n
            invariant
                n == self@.len(),
                i <= n,
                self@ == old(self)@,
                match best {
                    Some(b) => {
                        &&& b < i
                        &&& self@[b as int].last_update == f
                        &&& f < frame
                        &&& (forall|j: int| 0 <= j < i ==> self@[j].last_update >= f)
                        &&& (forall|j: int| 0 <= j < b ==> self@[j].last_update > f)
                    },
                    None => f == frame && (forall|j: int|
                        0 <= j < i ==> self@[j].last_update >= frame),
                },
            decreases n - i,
        {
            if self.get(i).last_update < f {
                f = self.get(i).last_update;
                best = Some(i);
            }
            i = i + 1;
        }
        match best {
            Some(b) => {
                self.set(b, PoolItem { id, last_update: frame });
                Some(b)
            },
            None => None,
        }
    }
}

impl<F: TextSizeHandler> Context<F> {
    /// Claims a treenode-pool slot for `id` at the current frame; fails
    /// gracefully when every slot was touched this frame.
    pub fn init_treenode_pool(&mut self, id: Id) -> (r: Option<usize>)
        requires
            old(self).wf(),
        ensures
            final(self).wf(),
            *final(self) == (Context { treenode_pool: final(self).treenode_pool, ..*old(self) }),
            match r {
                Some(i) => {
                    &&& i < crate::TREENODE_POOL_SIZE
                    &&& old(self).treenode_pool@[i as int].last_update < old(self).frame
                    &&& (forall|j: int|
                        0 <= j < old(self).treenode_pool@.len() ==> old(self).treenode_pool@[j].last_update >= old(self).treenode_pool@[i as int].last_update)
                    &&& (forall|j: int|
                        0 <= j < i ==> old(self).treenode_pool@[j].last_update > old(self).treenode_pool@[i as int].last_update)
                    &&& final(self).treenode_pool@ == old(self).treenode_pool@.update(
                        i as int,
                        PoolItem { id, last_update: old(self).frame },
                    )
                },
                None => (forall|j: int|
                    0 <= j < old(self).treenode_pool@.len() ==> old(self).treenode_pool@[j].last_update >= old(self).frame) && *final(self) == *old(self),
            },
    {
        let frame = self.frame;
        self.treenode_pool.pool_init(id, frame)
    }

    /// Claims a container-pool slot for `id` at the current frame; fails
    /// gracefully when every slot was touched this frame.
    pub fn init_container_pool(&mut self, id: Id) -> (r: Option<usize>)
        requires
            old(self).wf(),
        ensures
            final(self).wf(),
            *final(self) == (Context { container_pool: final(self).container_pool, ..*old(self) }),
            match r {
                Some(i) => {
                    &&& i < crate::CONTAINER_POOL_SIZE
                    &&& old(self).container_pool@[i as int].last_update < old(self).frame
                    &&& (forall|j: int|
                        0 <= j < old(self).container_pool@.len() ==> old(self).container_pool@[j].last_update >= old(self).container_pool@[i as int].last_update)
                    &&& (forall|j: int|
                        0 <= j < i ==> old(self).container_pool@[j].last_update > old(self).container_pool@[i as int].last_update)
                    &&& final(self).container_pool@ == old(self).container_pool@.update(
                        i as int,
                        PoolItem { id, last_update: old(self).frame },
                    )
                },
                None => (forall|j: int|
                    0 <= j < old(self).container_pool@.len() ==> old(self).container_pool@[j].last_update >= old(self).frame) && *final(self) == *old(self),
            },
    {
        let frame = self.frame;
        self.container_pool.pool_init(id, frame)
    }
}

} // verus!
