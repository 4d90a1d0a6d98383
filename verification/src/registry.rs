//! Query identity allocation and the callback registry.
//!
//! The registry maps each outstanding [`AsyncID`](crate::AsyncID) token to the
//! completion record registered for it. An identity appears in the registry if
//! and only if the engine-level query it names has been submitted and has
//! neither completed nor been cancelled. Entries leave the registry exactly
//! once, through [`CallbackRegistry::take`]: whichever removal path (natural
//! completion or cancellation) finds the entry first wins, and the other
//! becomes a no-op.

use std::collections::HashMap;
use vstd::prelude::*;

verus! {

broadcast use vstd::std_specs::hash::group_hash_axioms;

/// What the registry keeps for one in-flight query: the engine-assigned raw
/// query handle (needed to issue an engine-level cancel) and the
/// caller-supplied completion handler, invoked at most once by whoever takes
/// the record.
pub struct CompletionRecord<H> {
    /// The engine's own identifier for the submitted query.
    pub ub_id: i32,
    /// The caller-supplied completion handler.
    pub handler: H,
}

/// A mapping from query-identity tokens to completion records, together with
/// the counter that allocates fresh identities.
///
/// The surrounding program guards one registry per engine context with a
/// mutual-exclusion lock; here exclusive access is the `&mut` borrow.
pub struct CallbackRegistry<H> {
    id: usize,
    callbacks: HashMap<usize, CompletionRecord<H>>,
}

impl<H> CallbackRegistry<H> {
    /// The registered records, keyed by identity token.
    pub closed spec fn view(self) -> Map<usize, CompletionRecord<H>> {
        self.callbacks@
    }

    /// The value the identity counter holds now: the token the next
    /// allocation returns.
    pub closed spec fn spec_next_id(self) -> usize {
        self.id
    }

    /// An empty registry whose counter starts at zero.
    pub fn new() -> (r: CallbackRegistry<H>)
        ensures
            r@ == Map::<usize, CompletionRecord<H>>::empty(),
            r.spec_next_id() == 0,
    {
        CallbackRegistry { id: 0, callbacks: HashMap::new() }
    }

    /// Allocates the next query identity: returns the counter's value and
    /// advances it by one, wrapping on overflow.
    pub fn next_id(&mut self) -> (r: usize)
        ensures
            r == old(self).spec_next_id(),
            final(self)@ == old(self)@,
            final(self).spec_next_id() == if old(self).spec_next_id() == usize::MAX {
                0usize
            } else {
                (old(self).spec_next_id() + 1) as usize
            },
    {
        let id = self.id;
        self.id = if id == usize::MAX {
            0
        } else {
            id + 1
        };
        id
    }

    /// Registers a completion record under a fresh identity.
    ///
    /// An identity is never reused while the query it names is still
    /// registered, so the token must not be present.
    pub fn register(&mut self, token: usize, record: CompletionRecord<H>)
        requires
            !old(self)@.contains_key(token),
        ensures
            final(self)@ == old(self)@.insert(token, record),
            final(self).spec_next_id() == old(self).spec_next_id(),
    {
        self.callbacks.insert(token, record);
    }

    /// Removes and returns the record registered under `token`, or returns
    /// `None` and leaves the registry unchanged when no such record exists.
    /// Both removal paths — natural completion and cancellation — go through
    /// here, which is what makes them mutually exclusive for one identity.
    pub fn take(&mut self, token: usize) -> (r: Option<CompletionRecord<H>>)
        ensures
            old(self)@.contains_key(token) ==> r == Some(old(self)@[token]) && final(self)@
                == old(self)@.remove(token),
            !old(self)@.contains_key(token) ==> r is None && final(self)@ == old(self)@,
            final(self).spec_next_id() == old(self).spec_next_id(),
    {
        self.callbacks.remove(&token)
    }

    /// True when a record is registered under `token`.
    pub fn contains(&self, token: usize) -> (r: bool)
        ensures
            r == self@.contains_key(token),
    {
        self.callbacks.contains_key(&token)
    }

    /// The number of currently registered records: exactly the number of
    /// in-flight queries (submitted, not yet completed or cancelled).
    pub fn len(&self) -> (r: usize)
        ensures
            r == self@.len(),
    {
        self.callbacks.len()
    }

    /// True when no query is in flight.
    pub fn is_empty(&self) -> (r: bool)
        ensures
            r == (self@.len() == 0),
    {
        self.callbacks.is_empty()
    }

    /// Drops every registered record without invoking any handler and empties
    /// the registry; returns how many records were abandoned. The identity
    /// counter keeps its value.
    pub fn abandon_all(&mut self) -> (r: usize)
        ensures
            r == old(self)@.len(),
            final(self)@ == Map::<usize, CompletionRecord<H>>::empty(),
            final(self).spec_next_id() == old(self).spec_next_id(),
    {
        let n = self.callbacks.len();
        self.callbacks.clear();
        n
    }
}

} // verus!
