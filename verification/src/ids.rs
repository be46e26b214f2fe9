//! The identifier stack and identifier creation on a context.
//!
//! Identifiers hash a caller key with the identifier on top of the stack
//! as entropy, so the same key produces different identifiers in
//! different traversal contexts, and the same identifier in the same one.

use vstd::prelude::*;

use crate::geometry::Rect;
use crate::id::{id_of_str, id_of_u64, Id};
use crate::{Context, TextSizeHandler, ID_STACK_SIZE};

verus! {

impl<F: TextSizeHandler> Context<F> {
    /// The hash entropy the identifier stack currently supplies: the top
    /// identifier's value, or zero when the stack is empty (which the
    /// hash maps to its fixed offset basis).
    pub open spec fn spec_entropy(&self) -> u64 {
        if self.id_stack@.len() == 0 {
            0
        } else {
            self.id_stack@.last().0
        }
    }

    /// The identifier a textual key hashes to in the current context.
    pub open spec fn spec_id_of(&self, key: Seq<char>) -> Id {
        id_of_str(key, self.spec_entropy())
    }

    /// Hashes a textual key under the current identifier-stack context.
    /// Equal keys under equal stack contents always yield equal
    /// identifiers, within a frame and across frames.
    pub fn create_id(&mut self, item: &str) -> (r: Id)
        ensures
            r == old(self).spec_id_of(item@),
            *final(self) == (Context { last_id: Some(r), ..*old(self) }),
    {
        let entropy = match self.id_stack.last() {
            Some(top) => top.0,
            None => 0,
        };
        let id = Id::new(item, entropy);
        self.last_id = Some(id);
        id
    }

    /// Hashes a numeric key under the current identifier-stack context.
    pub fn create_id_u64(&mut self, item: u64) -> (r: Id)
        ensures
            r == id_of_u64(item, old(self).spec_entropy()),
            *final(self) == (Context { last_id: Some(r), ..*old(self) }),
    {
        let entropy = match self.id_stack.last() {
            Some(top) => top.0,
            None => 0,
        };
        let id = Id::from_u64(item, entropy);
        self.last_id = Some(id);
        id
    }

    /// Hashes a textual key and pushes the result, so that nested
    /// identifiers are salted with it. The stack depth mirrors the
    /// nesting depth of the declared UI, which bounds it.
    pub fn push_id(&mut self, item: &str) -> (r: Id)
        requires
            old(self).id_stack@.len() < ID_STACK_SIZE,
            old(self).id_stack.wf(),
        ensures
            r == old(self).spec_id_of(item@),
            final(self).id_stack@ == old(self).id_stack@.push(r),
            *final(self) == (Context {
                last_id: Some(r),
                id_stack: final(self).id_stack,
                ..*old(self)
            }),
    {
        let id = self.create_id(item);
        self.id_stack.push(id);
        id
    }

    /// Pops the identifier stack, returning the popped identifier.
    pub fn pop_id(&mut self) -> (r: Option<Id>)
        requires
            old(self).id_stack.wf(),
        ensures
            *final(self) == (Context { id_stack: final(self).id_stack, ..*old(self) }),
            old(self).id_stack@.len() == 0 ==> r is None && final(self).id_stack@ == old(
                self,
            ).id_stack@,
            old(self).id_stack@.len() > 0 ==> r == Some(old(self).id_stack@.last()) && final(self).id_stack@ == old(self).id_stack@.drop_last(),
    {
        self.id_stack.pop()
    }

    /// The identifier most recently created, if any.
    pub fn last_id(&self) -> (r: Option<Id>)
        ensures
            r == self.last_id,
    {
        self.last_id
    }

    /// The rectangle most recently produced by the layout engine.
    pub fn last_rect(&self) -> (r: Rect)
        ensures
            r == self.last_rect,
    {
        self.last_rect
    }
}

} // verus!
