//! The life of a query identity, and the laws the take-once registry
//! discipline gives it.
//!
//! Between its creation and its teardown, a context's in-flight set changes
//! through exactly three kinds of step: a submission registers an identity
//! token, a delivery removes one, a cancellation removes one. This module
//! states those steps over a plain set of tokens and proves the laws every
//! interleaving obeys. The executable operations refine these steps on the
//! domain of the context's view: [`Context::resolve_async_end`] on success is
//! [`QueryEvent::Submit`], [`Context::deliver`] is [`QueryEvent::Deliver`],
//! and [`Context::cancel`] is [`QueryEvent::Cancel`]
//! ([`lemma_submit_refines_step`] and its siblings make that exact).
//!
//! [`Context::resolve_async_end`]: crate::context::Context::resolve_async_end
//! [`Context::deliver`]: crate::context::Context::deliver
//! [`Context::cancel`]: crate::context::Context::cancel

use vstd::prelude::*;

use crate::registry::CompletionRecord;

verus! {

/// One observable step in the life of a context's in-flight set.
#[derive(Clone, Copy, Debug, PartialEq, Eq, Structural)]
pub enum QueryEvent {
    /// A submission succeeded and registered this identity token.
    Submit(usize),
    /// The engine delivered a completion carrying this token.
    Deliver(usize),
    /// A caller asked to cancel this token.
    Cancel(usize),
}

/// The in-flight token set after one event. A delivery or cancellation of a
/// token not in flight removes nothing: it is the no-op the registry's
/// take-once discipline turns it into.
pub open spec fn step_tokens(dom: Set<usize>, e: QueryEvent) -> Set<usize> {
    match e {
        QueryEvent::Submit(tok) => dom.insert(tok),
        QueryEvent::Deliver(tok) => dom.remove(tok),
        QueryEvent::Cancel(tok) => dom.remove(tok),
    }
}

/// The in-flight token set after a whole trace of events.
pub open spec fn run_tokens(dom: Set<usize>, events: Seq<QueryEvent>) -> Set<usize>
    decreases events.len(),
{
    if events.len() == 0 {
        dom
    } else {
        step_tokens(run_tokens(dom, events.drop_last()), events.last())
    }
}

/// Whether the event tries to take `tok` out of the in-flight set — by
/// delivery or by cancellation, the two terminal paths.
pub open spec fn is_removal(e: QueryEvent, tok: usize) -> bool {
    e == QueryEvent::Deliver(tok) || e == QueryEvent::Cancel(tok)
}

/// How many times `tok` was submitted over the trace.
pub open spec fn submit_count(events: Seq<QueryEvent>, tok: usize) -> nat
    decreases events.len(),
{
    if events.len() == 0 {
        0
    } else {
        submit_count(events.drop_last(), tok) + if events.last() == QueryEvent::Submit(tok) {
            1nat
        } else {
            0nat
        }
    }
}

/// How many removals of `tok` took effect: a delivery or cancellation that
/// found the token in flight. One that found nothing took no effect.
pub open spec fn effective_removals(dom: Set<usize>, events: Seq<QueryEvent>, tok: usize) -> nat
    decreases events.len(),
{
    if events.len() == 0 {
        0
    } else {
        effective_removals(dom, events.drop_last(), tok) + if is_removal(events.last(), tok)
            && run_tokens(dom, events.drop_last()).contains(tok) {
            1nat
        } else {
            0nat
        }
    }
}

/// Identities come from a counter and are never reused while the query they
/// name is still registered: every submission in the trace carries a token
/// that is not in flight at that moment and was not submitted before.
pub open spec fn fresh_submits(dom: Set<usize>, events: Seq<QueryEvent>) -> bool {
    forall|i: int|
        0 <= i < events.len() && (#[trigger] events[i]) is Submit ==> {
            let tok = events[i]->Submit_0;
            &&& !run_tokens(dom, events.take(i)).contains(tok)
            &&& submit_count(events.take(i), tok) == 0
        }
}

/// Freshness of a trace passes to its prefix.
proof fn lemma_fresh_submits_prefix(dom: Set<usize>, events: Seq<QueryEvent>)
    requires
        fresh_submits(dom, events),
        events.len() > 0,
    ensures
        fresh_submits(dom, events.drop_last()),
{
    let prefix = events.drop_last();
    assert forall|i: int| 0 <= i < prefix.len() && (#[trigger] prefix[i]) is Submit implies {
        let tok = prefix[i]->Submit_0;
        &&& !run_tokens(dom, prefix.take(i)).contains(tok)
        &&& submit_count(prefix.take(i), tok) == 0
    } by {
        assert(prefix[i] == events[i]);
        assert(prefix.take(i) =~= events.take(i));
    }
}

/// Conservation across one whole trace: counting how often `tok` entered the
/// in-flight set (initial presence plus submissions) and how often it left
/// (effective removals plus final presence), the two sides agree.
pub proof fn lemma_lifecycle_conservation(dom: Set<usize>, events: Seq<QueryEvent>, tok: usize)
    requires
        fresh_submits(dom, events),
    ensures
        effective_removals(dom, events, tok) + (if run_tokens(dom, events).contains(tok) {
            1int
        } else {
            0int
        }) == (if dom.contains(tok) {
            1int
        } else {
            0int
        }) + submit_count(events, tok),
    decreases events.len(),
{
    if events.len() > 0 {
        let prefix = events.drop_last();
        lemma_fresh_submits_prefix(dom, events);
        lemma_lifecycle_conservation(dom, prefix, tok);
        let cur = run_tokens(dom, prefix);
        match events.last() {
            QueryEvent::Submit(t) => {
                if t == tok {
                    assert(events[events.len() - 1] is Submit);
                    assert(events.take(events.len() - 1) =~= prefix);
                    assert(!cur.contains(tok));
                }
            },
            QueryEvent::Deliver(t) => {},
            QueryEvent::Cancel(t) => {},
        }
    }
}

/// Under fresh identity allocation no token is submitted twice.
pub proof fn lemma_submit_count_at_most_one(dom: Set<usize>, events: Seq<QueryEvent>, tok: usize)
    requires
        fresh_submits(dom, events),
    ensures
        submit_count(events, tok) <= 1,
    decreases events.len(),
{
    if events.len() > 0 {
        let prefix = events.drop_last();
        lemma_fresh_submits_prefix(dom, events);
        lemma_submit_count_at_most_one(dom, prefix, tok);
        if events.last() == QueryEvent::Submit(tok) {
            assert(events[events.len() - 1] is Submit);
            assert(events.take(events.len() - 1) =~= prefix);
            assert(submit_count(prefix, tok) == 0);
        }
    }
}

/// Every query identity ends in exactly one terminal state. Over any trace of
/// submissions, deliveries and cancellations on a context that started empty
/// and allocates fresh identities: a token never leaves the in-flight set by
/// both paths or twice by one — and once nothing is left waiting (as after a
/// final blocking wait), a token that was submitted has left by exactly one of
/// delivery and cancellation: never both, never neither.
pub proof fn lemma_exactly_one_terminal(events: Seq<QueryEvent>, tok: usize)
    requires
        fresh_submits(Set::empty(), events),
    ensures
        effective_removals(Set::empty(), events, tok) <= 1,
        submit_count(events, tok) == 1 && !run_tokens(Set::empty(), events).contains(tok)
            ==> effective_removals(Set::empty(), events, tok) == 1,
{
    lemma_lifecycle_conservation(Set::empty(), events, tok);
    lemma_submit_count_at_most_one(Set::empty(), events, tok);
}

/// The net effect one event has on the in-flight count: an effective
/// submission adds one, an effective removal takes one, anything else leaves
/// the count alone.
pub open spec fn count_delta(cur: Set<usize>, e: QueryEvent) -> int {
    match e {
        QueryEvent::Submit(tok) => if cur.contains(tok) {
            0int
        } else {
            1int
        },
        QueryEvent::Deliver(tok) => if cur.contains(tok) {
            -1int
        } else {
            0int
        },
        QueryEvent::Cancel(tok) => if cur.contains(tok) {
            -1int
        } else {
            0int
        },
    }
}

/// The sum of the per-event effects over a trace.
pub open spec fn net_change(dom: Set<usize>, events: Seq<QueryEvent>) -> int
    decreases events.len(),
{
    if events.len() == 0 {
        0
    } else {
        net_change(dom, events.drop_last()) + count_delta(
            run_tokens(dom, events.drop_last()),
            events.last(),
        )
    }
}

/// The registry's size equals the number of in-flight queries at every
/// observation point: however a trace interleaves submissions, deliveries and
/// cancellations, the in-flight set stays finite and its size is the initial
/// size plus the submissions that registered minus the removals that took
/// effect.
pub proof fn lemma_inflight_size(dom: Set<usize>, events: Seq<QueryEvent>)
    requires
        dom.finite(),
    ensures
        run_tokens(dom, events).finite(),
        run_tokens(dom, events).len() == dom.len() + net_change(dom, events),
    decreases events.len(),
{
    if events.len() > 0 {
        let prefix = events.drop_last();
        lemma_inflight_size(dom, prefix);
        let cur = run_tokens(dom, prefix);
        match events.last() {
            QueryEvent::Submit(t) => {
                vstd::set::axiom_set_insert_len(cur, t);
                vstd::set::axiom_set_insert_finite(cur, t);
            },
            QueryEvent::Deliver(t) => {
                vstd::set::axiom_set_remove_len(cur, t);
                vstd::set::axiom_set_remove_finite(cur, t);
            },
            QueryEvent::Cancel(t) => {
                vstd::set::axiom_set_remove_len(cur, t);
                vstd::set::axiom_set_remove_finite(cur, t);
            },
        }
    }
}

/// A successful submission changes the context's view exactly as
/// [`QueryEvent::Submit`] changes the in-flight token set.
pub proof fn lemma_submit_refines_step<H>(
    m: Map<usize, CompletionRecord<H>>,
    tok: usize,
    record: CompletionRecord<H>,
)
    ensures
        m.insert(tok, record).dom() == step_tokens(m.dom(), QueryEvent::Submit(tok)),
{
    assert(m.insert(tok, record).dom() =~= m.dom().insert(tok));
}

/// A delivery that finds its record changes the context's view exactly as
/// [`QueryEvent::Deliver`] changes the in-flight token set.
pub proof fn lemma_deliver_refines_step<H>(m: Map<usize, CompletionRecord<H>>, tok: usize)
    ensures
        m.remove(tok).dom() == step_tokens(m.dom(), QueryEvent::Deliver(tok)),
{
    assert(m.remove(tok).dom() =~= m.dom().remove(tok));
}

/// A cancellation that finds its record changes the context's view exactly as
/// [`QueryEvent::Cancel`] changes the in-flight token set.
pub proof fn lemma_cancel_refines_step<H>(m: Map<usize, CompletionRecord<H>>, tok: usize)
    ensures
        m.remove(tok).dom() == step_tokens(m.dom(), QueryEvent::Cancel(tok)),
{
    assert(m.remove(tok).dom() =~= m.dom().remove(tok));
}

} // verus!
