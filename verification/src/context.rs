//! The engine-context coordination state: identity allocation, registration,
//! delivery, cancellation.
//!
//! A [`Context`] owns the safe-side state that accompanies one engine
//! context: the [`CallbackRegistry`] and its identity counter. The engine
//! calls themselves — create, submit, cancel, process, wait — are performed by
//! the surrounding program, which drives this type through the outcomes:
//!
//! * to resolve asynchronously, call [`Context::resolve_async_begin`], pass
//!   the returned token and name bytes to the engine's asynchronous submit,
//!   then hand the engine's return code to [`Context::resolve_async_end`];
//! * when the engine invokes its completion callback (always on the calling
//!   thread, from inside a process or wait call), hand the token, code and
//!   marshalled result to [`Context::deliver`] and invoke the handler it
//!   returns, after the registry access has ended;
//! * to cancel, call [`Context::cancel`] and issue the engine-level cancel on
//!   the raw handle it returns;
//! * a blocking wait loops while [`Context::have_waiting`] holds, alternating
//!   descriptor-readiness waits with processing.

use vstd::prelude::*;
use vstd::string::StringSliceAdditionalSpecFns;

use crate::answer::Answer;
use crate::registry::CallbackRegistry;
use crate::registry::CompletionRecord;
use crate::AsyncID;
use crate::Error;

verus! {

/// The outcome the completion callback reports for one query, as the engine
/// documents it: a zero code means success and carries a result, a nonzero
/// code is an engine error.
pub open spec fn decode_outcome(code: i32, result: Option<Answer>) -> crate::Result<Answer> {
    if code == 0 {
        Ok(result->Some_0)
    } else {
        Err(Error::UB(code))
    }
}

/// The verified part of the synchronous resolution path: the typed outcome
/// for the engine's verdict, decoded exactly as the callback bridge decodes
/// asynchronous completions. The engine passes a result with every zero code.
pub fn resolve_decode(code: i32, result: Option<Answer>) -> (r: crate::Result<Answer>)
    requires
        code == 0 ==> result is Some,
    ensures
        r == decode_outcome(code, result),
{
    match result {
        Some(a) => {
            if code == 0 {
                Ok(a)
            } else {
                Err(Error::UB(code))
            }
        },
        None => Err(Error::UB(code)),
    }
}

/// The safe-side state of one engine context.
///
/// `H` is the caller-supplied completion handler kept for each in-flight
/// query; the registry owns it from submission until exactly one of delivery
/// or cancellation takes it out.
pub struct Context<H> {
    protected: CallbackRegistry<H>,
}

impl<H> Context<H> {
    /// The in-flight queries: each registered identity token with its record.
    pub closed spec fn view(self) -> Map<usize, CompletionRecord<H>> {
        self.protected@
    }

    /// The token the next allocation will use.
    pub closed spec fn spec_next_id(self) -> usize {
        self.protected.spec_next_id()
    }

    /// A fresh context: nothing in flight, identities starting at zero.
    pub fn new() -> (r: Context<H>)
        ensures
            r@ == Map::<usize, CompletionRecord<H>>::empty(),
            r.spec_next_id() == 0,
    {
        Context { protected: CallbackRegistry::new() }
    }

    /// Begins an asynchronous resolution: checks that the name can cross the
    /// engine boundary and allocates the query's identity. Returns the
    /// identity together with the exact bytes to hand to the engine's
    /// asynchronous submit (the identity's token goes along as the opaque
    /// per-call value). A name holding an interior zero byte is rejected
    /// before any identity is consumed.
    pub fn resolve_async_begin(&mut self, name: &str) -> (r: crate::Result<(AsyncID, Vec<u8>)>)
        ensures
            match r {
                Ok(p) => {
                    &&& !crate::has_nul(name.spec_bytes())
                    &&& p.1@ == name.spec_bytes().push(0u8)
                    &&& p.0.spec_token() == old(self).spec_next_id()
                    &&& final(self)@ == old(self)@
                    &&& final(self).spec_next_id() == if old(self).spec_next_id() == usize::MAX {
                        0usize
                    } else {
                        (old(self).spec_next_id() + 1) as usize
                    }
                },
                Err(e) => {
                    &&& crate::has_nul(name.spec_bytes())
                    &&& e == Error::NullByte
                    &&& *final(self) == *old(self)
                },
            },
    {
        let c_name = crate::name_to_c_bytes(name)?;
        let token = self.protected.next_id();
        Ok((AsyncID::from_token(token), c_name))
    }

    /// Finishes an asynchronous resolution with the engine's verdict on the
    /// submission. On success the completion record — the engine's raw query
    /// handle and the caller's handler — is registered under the identity, and
    /// the identity is returned for later cancellation. On failure nothing is
    /// left registered and the error code is surfaced, so a failed submission
    /// never leaves a dangling record.
    ///
    /// The identity comes from [`Context::resolve_async_begin`] on this
    /// context and is never reused while still registered, so it must not be
    /// present.
    pub fn resolve_async_end(&mut self, id: AsyncID, code: i32, ub_id: i32, handler: H) -> (r:
        crate::Result<AsyncID>)
        requires
            !old(self)@.contains_key(id.spec_token()),
        ensures
            final(self).spec_next_id() == old(self).spec_next_id(),
            code == 0 ==> {
                &&& r == crate::Result::<AsyncID>::Ok(id)
                &&& final(self)@ == old(self)@.insert(
                    id.spec_token(),
                    CompletionRecord { ub_id, handler },
                )
            },
            code != 0 ==> {
                &&& r == crate::Result::<AsyncID>::Err(Error::UB(code))
                &&& final(self)@ == old(self)@
            },
    {
        if code == 0 {
            self.protected.register(id.token(), CompletionRecord { ub_id, handler });
            Ok(id)
        } else {
            Err(Error::UB(code))
        }
    }

    /// Cancels an asynchronous query: removes its record, and returns the
    /// engine's raw query handle so the caller can issue the engine-level
    /// cancel. The handler is dropped without being invoked — cancellation is
    /// not a completion. Cancelling an identity that is unknown, already
    /// delivered or already cancelled changes nothing and returns `None`:
    /// cancellation is idempotent and never an error.
    pub fn cancel(&mut self, id: AsyncID) -> (r: Option<i32>)
        ensures
            final(self).spec_next_id() == old(self).spec_next_id(),
            old(self)@.contains_key(id.spec_token()) ==> {
                &&& r == Some(old(self)@[id.spec_token()].ub_id)
                &&& final(self)@ == old(self)@.remove(id.spec_token())
            },
            !old(self)@.contains_key(id.spec_token()) ==> {
                &&& r is None
                &&& final(self)@ == old(self)@
            },
    {
        match self.protected.take(id.token()) {
            Some(record) => Some(record.ub_id),
            None => None,
        }
    }

    /// The native callback bridge's decision: recovers the identity from the
    /// opaque token, decodes the engine's verdict, and takes the matching
    /// record out of the registry. Returns the handler to invoke — exactly
    /// once, by the caller, with the registry no longer borrowed — together
    /// with the typed outcome. Returns `None` for a token with no record (the
    /// query was already cancelled): a stray completion is safely ignored,
    /// though its result payload was still consumed here.
    ///
    /// The engine passes a result with every successful completion.
    pub fn deliver(&mut self, token: usize, code: i32, result: Option<Answer>) -> (r: Option<
        (H, crate::Result<Answer>),
    >)
        requires
            code == 0 ==> result is Some,
        ensures
            final(self).spec_next_id() == old(self).spec_next_id(),
            old(self)@.contains_key(token) ==> {
                &&& r == Some((old(self)@[token].handler, decode_outcome(code, result)))
                &&& final(self)@ == old(self)@.remove(token)
            },
            !old(self)@.contains_key(token) ==> {
                &&& r is None
                &&& final(self)@ == old(self)@
            },
    {
        let outcome: crate::Result<Answer> = if code == 0 {
            Ok(result.unwrap())
        } else {
            Err(Error::UB(code))
        };
        match self.protected.take(token) {
            Some(record) => Some((record.handler, outcome)),
            None => None,
        }
    }

    /// True while the identity is registered: its query is in flight.
    pub fn is_registered(&self, id: AsyncID) -> (r: bool)
        ensures
            r == self@.contains_key(id.spec_token()),
    {
        self.protected.contains(id.token())
    }

    /// True while any asynchronous query is unprocessed: a blocking wait loop
    /// keeps alternating readiness waits and processing while this holds, and
    /// must re-check it after every wake, spurious or not.
    pub fn have_waiting(&self) -> (r: bool)
        ensures
            r == (self@.len() != 0),
    {
        !self.protected.is_empty()
    }

    /// How many queries are in flight: submitted and neither completed nor
    /// cancelled. Equals the registry's size at every observation point.
    pub fn outstanding(&self) -> (r: usize)
        ensures
            r == self@.len(),
    {
        self.protected.len()
    }

    /// Tears the context's safe side down: every record still registered is
    /// dropped without its handler being invoked — abandoned, not completed —
    /// and the count of abandoned records is returned. The caller releases
    /// the engine state afterwards.
    pub fn destroy(&mut self) -> (r: usize)
        ensures
            r == old(self)@.len(),
            final(self)@ == Map::<usize, CompletionRecord<H>>::empty(),
    {
        self.protected.abandon_all()
    }
}

} // verus!
