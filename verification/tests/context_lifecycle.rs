//! The life of asynchronous queries against one context: submission,
//! delivery, cancellation, teardown.

use unbound::answer::Answer;
use unbound::context::Context;
use unbound::AsyncID;
use unbound::Error;

fn answer_for(name: &str, data: Vec<Vec<u8>>) -> Answer {
    Answer {
        qname: String::from(name),
        qtype: 1,
        qclass: 1,
        data,
        canonname: None,
        rcode: 0,
        answer_packet: None,
        havedata: true,
        nxdomain: false,
        secure: false,
        bogus: false,
        why_bogus: None,
        ttl: 300,
    }
}

/// Submits one query end to end and checks every observation on the way.
#[test]
fn submit_then_deliver() {
    let mut ctx: Context<u64> = Context::new();
    assert!(!ctx.have_waiting());
    assert_eq!(ctx.outstanding(), 0);

    let (id, c_name) = ctx.resolve_async_begin("example.com").unwrap();
    assert_eq!(id.token(), 0);
    assert_eq!(c_name, b"example.com\0".to_vec());
    // Nothing is registered until the engine accepted the submission.
    assert_eq!(ctx.outstanding(), 0);

    let id = ctx.resolve_async_end(id, 0, 17, 42).unwrap();
    assert_eq!(ctx.outstanding(), 1);
    assert!(ctx.have_waiting());

    let a = answer_for("example.com", vec![vec![93, 184, 216, 34]]);
    let (handler, outcome) = ctx.deliver(id.token(), 0, Some(a.clone())).unwrap();
    assert_eq!(handler, 42);
    assert_eq!(outcome.unwrap(), a);
    assert_eq!(ctx.outstanding(), 0);
    assert!(!ctx.have_waiting());
}

/// A name with an interior null byte is rejected before any identity is
/// consumed.
#[test]
fn null_byte_rejected() {
    let mut ctx: Context<u64> = Context::new();
    let err = ctx.resolve_async_begin("bad\0name").unwrap_err();
    assert_eq!(err, Error::NullByte);
    // The identity counter did not move: the next begin still hands out 0.
    let (id, _) = ctx.resolve_async_begin("good.name").unwrap();
    assert_eq!(id.token(), 0);
}

/// A failed engine submission registers nothing and surfaces the code.
#[test]
fn failed_submission_leaves_nothing() {
    let mut ctx: Context<u64> = Context::new();
    let (id, _) = ctx.resolve_async_begin("example.org").unwrap();
    let err = ctx.resolve_async_end(id, -10, 0, 1).unwrap_err();
    assert_eq!(err, Error::UB(-10));
    assert_eq!(ctx.outstanding(), 0);
    // The identity was consumed by the attempt all the same.
    let (id2, _) = ctx.resolve_async_begin("example.org").unwrap();
    assert_eq!(id2.token(), 1);
}

/// Cancelling an unknown or already-resolved identity is a no-op and returns
/// no error.
#[test]
fn cancel_is_idempotent() {
    let mut ctx: Context<u64> = Context::new();

    // Unknown identity: nothing happens.
    assert_eq!(ctx.cancel(AsyncID::from_token(99)), None);
    assert_eq!(ctx.outstanding(), 0);

    let (id, _) = ctx.resolve_async_begin("example.com").unwrap();
    let id = ctx.resolve_async_end(id, 0, 5, 7).unwrap();

    // First cancel wins and reports the engine handle to cancel.
    assert_eq!(ctx.cancel(id), Some(5));
    assert_eq!(ctx.outstanding(), 0);

    // Second cancel of the same identity: silent no-op.
    assert_eq!(ctx.cancel(id), None);

    // Cancel after delivery is a no-op too.
    let (id2, _) = ctx.resolve_async_begin("example.net").unwrap();
    let id2 = ctx.resolve_async_end(id2, 0, 6, 8).unwrap();
    let a = answer_for("example.net", vec![]);
    assert!(ctx.deliver(id2.token(), 0, Some(a)).is_some());
    assert_eq!(ctx.cancel(id2), None);
}

/// The registry size equals the number of in-flight queries at every
/// observation point.
#[test]
fn outstanding_tracks_in_flight() {
    let mut ctx: Context<u64> = Context::new();
    let mut ids = Vec::new();
    for k in 0..4u64 {
        let (id, _) = ctx.resolve_async_begin("example.com").unwrap();
        let id = ctx.resolve_async_end(id, 0, k as i32, k).unwrap();
        ids.push(id);
        assert_eq!(ctx.outstanding(), (k + 1) as usize);
    }
    // One delivery: down by one.
    let a = answer_for("example.com", vec![]);
    ctx.deliver(ids[1].token(), 0, Some(a)).unwrap();
    assert_eq!(ctx.outstanding(), 3);
    // One cancellation: down by one.
    ctx.cancel(ids[0]);
    assert_eq!(ctx.outstanding(), 2);
    // A stray completion for the cancelled query: unchanged.
    assert!(ctx.deliver(ids[0].token(), 0, Some(answer_for("x", vec![]))).is_none());
    assert_eq!(ctx.outstanding(), 2);
}

/// Destroying a context with N outstanding queries abandons all N records
/// without invoking any handler.
#[test]
fn destroy_abandons_without_invoking() {
    let mut ctx: Context<u64> = Context::new();
    for k in 0..3u64 {
        let (id, _) = ctx.resolve_async_begin("example.com").unwrap();
        ctx.resolve_async_end(id, 0, k as i32, 100 + k).unwrap();
    }
    assert_eq!(ctx.outstanding(), 3);

    // A handler only ever runs when `deliver` hands it out; destroy hands
    // nothing out, so none of the three can fire.
    let abandoned = ctx.destroy();
    assert_eq!(abandoned, 3);
    assert_eq!(ctx.outstanding(), 0);
    assert!(!ctx.have_waiting());
}

/// Two queries, completions delivered in the opposite order: each handler
/// fires exactly once with its own query's result, keyed by identity, never
/// by position.
#[test]
fn delivery_is_keyed_not_positional() {
    let mut ctx: Context<u64> = Context::new();

    let (id_a, _) = ctx.resolve_async_begin("a.example").unwrap();
    let id_a = ctx.resolve_async_end(id_a, 0, 1, 1001).unwrap();
    let (id_b, _) = ctx.resolve_async_begin("b.example").unwrap();
    let id_b = ctx.resolve_async_end(id_b, 0, 2, 1002).unwrap();

    let answer_a = answer_for("a.example", vec![vec![1]]);
    let answer_b = answer_for("b.example", vec![vec![2]]);

    // The engine delivers B first.
    let (handler_b, outcome_b) = ctx.deliver(id_b.token(), 0, Some(answer_b.clone())).unwrap();
    assert_eq!(handler_b, 1002);
    assert_eq!(outcome_b.unwrap(), answer_b);

    let (handler_a, outcome_a) = ctx.deliver(id_a.token(), 0, Some(answer_a.clone())).unwrap();
    assert_eq!(handler_a, 1001);
    assert_eq!(outcome_a.unwrap(), answer_a);

    // Each fired exactly once: nothing is left to fire again.
    assert!(ctx.deliver(id_a.token(), 0, Some(answer_a)).is_none());
    assert!(ctx.deliver(id_b.token(), 0, Some(answer_b)).is_none());
}

/// Cancel before any processing: the handler never fires, and a stray
/// engine-level completion for the cancelled token is safely ignored.
#[test]
fn cancel_beats_stray_completion() {
    let mut ctx: Context<u64> = Context::new();
    let (id, _) = ctx.resolve_async_begin("a.example").unwrap();
    let id = ctx.resolve_async_end(id, 0, 9, 77).unwrap();

    assert_eq!(ctx.cancel(id), Some(9));

    // The engine had already produced a result for this token: the identity
    // is not found, so no handler is handed out.
    let stray = answer_for("a.example", vec![vec![3]]);
    assert!(ctx.deliver(id.token(), 0, Some(stray)).is_none());
    assert_eq!(ctx.outstanding(), 0);
}

/// An engine error code in a completion reaches the handler as a typed error.
#[test]
fn engine_error_is_typed() {
    let mut ctx: Context<u64> = Context::new();
    let (id, _) = ctx.resolve_async_begin("a.example").unwrap();
    let id = ctx.resolve_async_end(id, 0, 3, 5).unwrap();
    let (handler, outcome) = ctx.deliver(id.token(), -4, None).unwrap();
    assert_eq!(handler, 5);
    assert_eq!(outcome.unwrap_err(), Error::UB(-4));
}

/// Contexts move freely: queries submitted before a swap are still delivered
/// against the moved value, and teardown of the other context is independent.
#[test]
fn test_move_context() {
    let mut a: Context<u64> = Context::new();
    let mut b: Context<u64> = Context::new();
    let (id, _) = b.resolve_async_begin("localhost").unwrap();
    let id = b.resolve_async_end(id, 0, 1, 1).unwrap();
    std::mem::swap(&mut a, &mut b);
    b.destroy();
    // Wait on `a`: process completions until nothing is waiting.
    while a.have_waiting() {
        let localhost = answer_for("localhost", vec![vec![127, 0, 0, 1]]);
        a.deliver(id.token(), 0, Some(localhost)).unwrap();
    }
    assert_eq!(a.outstanding(), 0);
}
