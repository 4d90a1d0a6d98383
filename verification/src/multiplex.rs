//! The cooperative multiplexing layer: one coordinator owns the context and
//! serves many independently awaited queries.
//!
//! The coordinator ([`ContextFuture`]) runs a cooperative loop with two wake
//! sources: a control channel carrying [`CtlMsg`] requests from any number of
//! caller-held handles, and the context's readiness descriptor. Both the
//! channels and the descriptor wait belong to the surrounding program; every
//! decision — what a control message does to the context, where an engine
//! completion is routed, when the loop may finish — is a verified operation
//! here. Each awaiting caller holds an [`AnswerFuture`], a four-step state
//! machine that terminates exactly once.

use std::collections::HashMap;
use vstd::prelude::*;

use crate::answer::Answer;
use crate::context::decode_outcome;
use crate::context::Context;
use crate::AsyncID;
use crate::Error;

verus! {

broadcast use vstd::std_specs::hash::group_hash_axioms;

/// One question: a name to resolve with its record class and type.
#[derive(Debug, Clone, PartialEq, Eq)]
pub struct Question {
    /// The name to resolve.
    pub name: String,
    /// The record class asked for.
    pub class: u16,
    /// The record type asked for.
    pub ty: u16,
}

/// A request travelling over the coordinator's control channel.
#[derive(Debug)]
pub enum CtlMsg {
    /// Accept a new query; the requester awaits the assigned identity.
    QueryNew {
        /// The question to submit.
        question: Question,
    },
    /// Release the pending entry for this identity and cancel it at the
    /// engine.
    QueryCancel(AsyncID),
}

/// A caller-held handle on the coordinator: creating an awaitable query
/// needs nothing but the question, so the handle itself carries no state —
/// the control channel it clones for each future belongs to the surrounding
/// program.
#[derive(Debug, Clone)]
pub struct ContextFutureHandle {
}

impl ContextFutureHandle {
    /// Starts one asynchronous resolution: returns the awaitable in its
    /// initial state, holding the question it will submit over the control
    /// channel.
    pub fn resolve(&mut self, name: &str, class: u16, ty: u16) -> (r: AnswerFuture)
        ensures
            r.spec_state() matches AnswerFutureState::Initial { q }
                && q.name@ == name@ && q.class == class && q.ty == ty,
    {
        let q = Question { name: name.to_owned(), class, ty };
        AnswerFuture { state: AnswerFutureState::Initial { q } }
    }
}

/// The outcome the awaiting caller receives through the asynchronous path,
/// given the engine's verdict for its query: the coordinator decodes the
/// verdict, routes it to the future's completion channel, and awaiting yields
/// it unchanged.
pub open spec fn async_path_outcome(code: i32, result: Option<Answer>) -> crate::Result<Answer> {
    decode_outcome(code, result)
}

/// The outcome the synchronous entry point returns, given the engine's
/// verdict for the same query.
pub open spec fn sync_path_outcome(code: i32, result: Option<Answer>) -> crate::Result<Answer> {
    decode_outcome(code, result)
}

/// Round trip: for one question and one engine verdict — as with a
/// deterministic engine answering the identical question on both paths — the
/// asynchronous path (submit, await the future) yields exactly the outcome
/// the synchronous path returns.
pub proof fn lemma_round_trip(code: i32, result: Option<Answer>)
    ensures
        async_path_outcome(code, result) == sync_path_outcome(code, result),
{
}

/// The coordinator: owns one [`Context`] and the pending entries of every
/// accepted, not yet answered or cancelled query. The surrounding program
/// polls the control channel and the readiness descriptor and calls in with
/// what arrived.
pub struct ContextFuture {
    context: Context<()>,
    pending: HashMap<usize, Question>,
}

impl ContextFuture {
    /// The in-flight identity tokens registered at the context.
    pub closed spec fn spec_context(self) -> Map<
        usize,
        crate::registry::CompletionRecord<()>,
    > {
        self.context@
    }

    /// The pending entries: accepted queries whose awaiting requester has not
    /// yet been answered, keyed by identity token.
    pub closed spec fn spec_pending(self) -> Map<usize, Question> {
        self.pending@
    }

    /// Wraps a context into a coordinator with no pending entry, and the
    /// handle callers clone to reach it.
    pub fn from_context(context: Context<()>) -> (r: (ContextFutureHandle, ContextFuture))
        ensures
            r.1.spec_context() == context@,
            r.1.spec_pending() == Map::<usize, Question>::empty(),
    {
        let handle = ContextFutureHandle {};
        let coordinator = ContextFuture { context, pending: HashMap::new() };
        (handle, coordinator)
    }

    /// First half of accepting a `QueryNew` message: allocates the identity
    /// and the bytes for the engine's asynchronous submit. On an error —
    /// the question's name cannot cross the boundary — nothing changes and
    /// the error is the reply to send to the requester.
    pub fn query_begin(&mut self, question: &Question) -> (r: crate::Result<(AsyncID, Vec<u8>)>)
        ensures
            final(self).spec_pending() == old(self).spec_pending(),
            match r {
                Ok(p) => {
                    &&& !crate::has_nul(vstd::utf8::encode_utf8(question.name@))
                    &&& p.1@ == vstd::utf8::encode_utf8(question.name@).push(0u8)
                    &&& final(self).spec_context() == old(self).spec_context()
                },
                Err(e) => {
                    &&& crate::has_nul(vstd::utf8::encode_utf8(question.name@))
                    &&& e == Error::NullByte
                    &&& final(self).spec_context() == old(self).spec_context()
                },
            },
    {
        self.context.resolve_async_begin(question.name.as_str())
    }

    /// Second half of accepting a `QueryNew` message, with the engine's
    /// verdict on the submission. On success the identity is registered and
    /// `Ok(id)` is the reply to send to the requester, together with a fresh
    /// one-shot completion channel for it; on failure nothing is registered
    /// and the error is the reply.
    pub fn query_submitted(&mut self, id: AsyncID, code: i32, ub_id: i32) -> (r: crate::Result<
        AsyncID,
    >)
        requires
            !old(self).spec_context().contains_key(id.spec_token()),
        ensures
            final(self).spec_pending() == old(self).spec_pending(),
            code == 0 ==> {
                &&& r == crate::Result::<AsyncID>::Ok(id)
                &&& final(self).spec_context() == old(self).spec_context().insert(
                    id.spec_token(),
                    crate::registry::CompletionRecord { ub_id, handler: () },
                )
            },
            code != 0 ==> {
                &&& r == crate::Result::<AsyncID>::Err(Error::UB(code))
                &&& final(self).spec_context() == old(self).spec_context()
            },
    {
        self.context.resolve_async_end(id, code, ub_id, ())
    }

    /// Last step of accepting a query: `delivered` says whether the requester
    /// received the reply carrying its identity and completion channel. If it
    /// did, the pending entry is recorded; if the requester went away first,
    /// the just-registered query is cancelled instead, and the returned raw
    /// handle tells the caller to issue the engine-level cancel.
    pub fn query_replied(&mut self, question: Question, id: AsyncID, delivered: bool) -> (r:
        Option<i32>)
        ensures
            delivered ==> {
                &&& r is None
                &&& final(self).spec_pending() == old(self).spec_pending().insert(
                    id.spec_token(),
                    question,
                )
                &&& final(self).spec_context() == old(self).spec_context()
            },
            !delivered ==> {
                &&& final(self).spec_pending() == old(self).spec_pending()
                &&& (old(self).spec_context().contains_key(id.spec_token()) ==> {
                    &&& r == Some(old(self).spec_context()[id.spec_token()].ub_id)
                    &&& final(self).spec_context() == old(self).spec_context().remove(
                        id.spec_token(),
                    )
                })
                &&& (!old(self).spec_context().contains_key(id.spec_token()) ==> {
                    &&& r is None
                    &&& final(self).spec_context() == old(self).spec_context()
                })
            },
    {
        if delivered {
            self.pending.insert(id.token(), question);
            None
        } else {
            self.context.cancel(id)
        }
    }

    /// Handles a `QueryCancel` message: releases the pending entry if one is
    /// still there and takes the registered record out. The returned raw
    /// handle, if any, tells the caller to issue the engine-level cancel.
    /// A cancel for an identity that is unknown or already answered changes
    /// nothing — idempotent, never an error.
    pub fn query_cancelled(&mut self, id: AsyncID) -> (r: Option<i32>)
        ensures
            final(self).spec_pending() == old(self).spec_pending().remove(id.spec_token()),
            old(self).spec_pending().contains_key(id.spec_token()) ==> {
                &&& (old(self).spec_context().contains_key(id.spec_token()) ==> {
                    &&& r == Some(old(self).spec_context()[id.spec_token()].ub_id)
                    &&& final(self).spec_context() == old(self).spec_context().remove(
                        id.spec_token(),
                    )
                })
                &&& (!old(self).spec_context().contains_key(id.spec_token()) ==> {
                    &&& r is None
                    &&& final(self).spec_context() == old(self).spec_context()
                })
            },
            !old(self).spec_pending().contains_key(id.spec_token()) ==> {
                &&& r is None
                &&& final(self).spec_context() == old(self).spec_context()
            },
    {
        match self.pending.remove(&id.token()) {
            Some(_question) => self.context.cancel(id),
            None => None,
        }
    }

    /// Routes one completion the engine delivered during processing: takes
    /// the record and the pending entry for the token, and returns the typed
    /// outcome to send over that query's one-shot completion channel —
    /// exactly the decoded engine verdict, untouched. Returns `None` for a
    /// token that is no longer registered or no longer awaited (already
    /// cancelled): a stray completion is dropped, after its payload was
    /// consumed. The engine passes a result with every zero code.
    pub fn route_result(&mut self, token: usize, code: i32, result: Option<Answer>) -> (r: Option<
        crate::Result<Answer>,
    >)
        requires
            code == 0 ==> result is Some,
        ensures
            final(self).spec_context() == old(self).spec_context().remove(token),
            old(self).spec_context().contains_key(token) && old(self).spec_pending().contains_key(
                token,
            ) ==> {
                &&& r == Some(async_path_outcome(code, result))
                &&& final(self).spec_pending() == old(self).spec_pending().remove(token)
            },
            !(old(self).spec_context().contains_key(token) && old(
                self,
            ).spec_pending().contains_key(token)) ==> {
                &&& r is None
                &&& final(self).spec_pending() == old(self).spec_pending()
            },
    {
        proof {
            if !old(self).spec_context().contains_key(token) {
                assert(old(self).spec_context().remove(token) =~= old(self).spec_context());
            }
        }
        match self.context.deliver(token, code, result) {
            Some((_handler, outcome)) => {
                match self.pending.remove(&token) {
                    Some(_question) => Some(outcome),
                    None => None,
                }
            },
            None => None,
        }
    }

    /// True while the identity is registered at the context.
    pub fn is_registered(&self, id: AsyncID) -> (r: bool)
        ensures
            r == self.spec_context().contains_key(id.spec_token()),
    {
        self.context.is_registered(id)
    }

    /// How many accepted queries still await their answer.
    pub fn pending_len(&self) -> (r: usize)
        ensures
            r == self.spec_pending().len(),
    {
        self.pending.len()
    }

    /// Whether the coordinator's loop may finish: the control channel has
    /// closed (`ctl_done`, observed by the caller) and no accepted query
    /// still awaits its answer — so no result is dropped while a requester
    /// waits, and no requester waits forever.
    pub fn finished(&self, ctl_done: bool) -> (r: bool)
        ensures
            r == (ctl_done && self.spec_pending().len() == 0),
    {
        ctl_done && self.pending.is_empty()
    }
}

/// The states of one awaitable query, entered in order, each exactly once.
pub enum AnswerFutureState {
    /// Holds the question only; nothing sent yet.
    Initial {
        /// The question this future will submit.
        q: Question,
    },
    /// The control channel accepted the `QueryNew` message; waiting for the
    /// send to flush.
    Submitting,
    /// Waiting for the coordinator's reply with the assigned identity and
    /// completion channel.
    AwaitingAssignment,
    /// Waiting on the completion channel for the answer.
    AwaitingAnswer {
        /// The identity the coordinator assigned.
        id: AsyncID,
    },
    /// Terminal: the outcome has been yielded, or the future was abandoned.
    Done,
}

/// A per-call awaitable representing one in-flight or completed asynchronous
/// query. The surrounding program suspends at the channel boundaries and
/// reports what arrived; every transition is decided here.
pub struct AnswerFuture {
    state: AnswerFutureState,
}

impl AnswerFuture {
    /// Where the state machine stands.
    pub closed spec fn spec_state(self) -> AnswerFutureState {
        self.state
    }

    /// The control channel accepted the `QueryNew` message built from the
    /// question: moves from Initial to Submitting and hands the message to
    /// send.
    pub fn start_submit(&mut self) -> (r: CtlMsg)
        requires
            old(self).spec_state() is Initial,
        ensures
            final(self).spec_state() is Submitting,
            r matches CtlMsg::QueryNew { question } && old(self).spec_state()
                matches AnswerFutureState::Initial { q } && question == q,
    {
        let mut state = AnswerFutureState::Submitting;
        core::mem::swap(&mut self.state, &mut state);
        match state {
            AnswerFutureState::Initial { q } => CtlMsg::QueryNew { question: q },
            _ => {
                proof {
                    assert(false);
                }
                CtlMsg::QueryCancel(AsyncID::from_token(0))
            },
        }
    }

    /// The control channel flushed the message: moves from Submitting to
    /// AwaitingAssignment.
    pub fn on_submitted(&mut self)
        requires
            old(self).spec_state() is Submitting,
        ensures
            final(self).spec_state() is AwaitingAssignment,
    {
        self.state = AnswerFutureState::AwaitingAssignment;
    }

    /// The coordinator replied: with an identity (and, app-side, the
    /// completion channel), the future awaits its answer; with an error, the
    /// future is done and the error is returned to propagate.
    pub fn on_assignment(&mut self, reply: crate::Result<AsyncID>) -> (r: Option<Error>)
        requires
            old(self).spec_state() is AwaitingAssignment,
        ensures
            match reply {
                Ok(id) => final(self).spec_state() == (AnswerFutureState::AwaitingAnswer { id })
                    && r is None,
                Err(e) => final(self).spec_state() is Done && r == Some(e),
            },
    {
        match reply {
            Ok(id) => {
                self.state = AnswerFutureState::AwaitingAnswer { id };
                None
            },
            Err(e) => {
                self.state = AnswerFutureState::Done;
                Some(e)
            },
        }
    }

    /// A channel this future depends on went away before its reply arrived:
    /// the coordinator is gone. The future is done and yields the
    /// coordination error.
    pub fn on_coordination_lost(&mut self) -> (r: Error)
        requires
            !(old(self).spec_state() is Done),
        ensures
            final(self).spec_state() is Done,
            r == Error::LostContextFuture,
    {
        self.state = AnswerFutureState::Done;
        Error::LostContextFuture
    }

    /// The completion channel yielded the outcome: the future is done and
    /// yields exactly what arrived — the decoded engine verdict the
    /// coordinator routed, untouched.
    pub fn on_answer(&mut self, outcome: crate::Result<Answer>) -> (r: crate::Result<Answer>)
        requires
            old(self).spec_state() is AwaitingAnswer,
        ensures
            final(self).spec_state() is Done,
            r == outcome,
    {
        self.state = AnswerFutureState::Done;
        outcome
    }

    /// Teardown of an abandoned future. If it progressed at least to an
    /// assigned identity — held in the state, or observed by the caller on
    /// the reply channel after the future stopped polling — that identity is
    /// returned so the caller can send a best-effort `QueryCancel`; the
    /// coordinator then releases the pending entry and issues the native
    /// cancel. Before any assignment there is nothing to cancel.
    pub fn abandon(&mut self, late_assignment: Option<AsyncID>) -> (r: Option<AsyncID>)
        ensures
            final(self).spec_state() is Done,
            old(self).spec_state() matches AnswerFutureState::AwaitingAnswer { id } ==> r == Some(
                id,
            ),
            old(self).spec_state() is AwaitingAssignment || old(self).spec_state() is Submitting
                ==> r == late_assignment,
            old(self).spec_state() is Initial || old(self).spec_state() is Done ==> r is None,
    {
        let mut state = AnswerFutureState::Done;
        core::mem::swap(&mut self.state, &mut state);
        match state {
            AnswerFutureState::AwaitingAnswer { id } => Some(id),
            AnswerFutureState::AwaitingAssignment => late_assignment,
            AnswerFutureState::Submitting => late_assignment,
            _ => None,
        }
    }
}

} // verus!
