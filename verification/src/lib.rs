//! Safe coordination layer for a single-threaded, callback-based asynchronous
//! name-resolution engine.
//!
//! The engine itself (creation, submission, cancellation, processing of
//! pending completions) lives behind a C-style interface and is driven by the
//! surrounding program. This crate holds the logic that makes that interface
//! safe to multiplex: it assigns a stable [`AsyncID`] to every outstanding
//! query, keeps the caller-supplied completion handler in a
//! [`registry::CallbackRegistry`] keyed by that identity, routes each engine
//! completion back to exactly one handler, supports idempotent cancellation,
//! and layers a cooperative multiplexing coordinator on top so that many
//! independently awaited queries share one engine context.
//!
//! Every decision the layer makes — which handler a completion belongs to,
//! whether a cancellation takes effect, when a waiting loop may stop — is a
//! verified function from plain values to plain values. The surrounding
//! program performs the engine calls and hands their outcomes back in.

use vstd::prelude::*;
use vstd::string::StringSliceAdditionalSpecFns;

pub mod answer;
pub mod context;
pub mod lifecycle;
pub mod multiplex;
pub mod registry;

verus! {

/// Common Result type for operations.
pub type Result<T> = core::result::Result<T, Error>;

/// Common Error type for operations.
#[derive(Clone, Copy, Debug, PartialEq, Eq, Structural)]
pub enum Error {
    /// Argument contained a null byte.
    NullByte,
    /// An engine error, carrying the engine's nonzero return code.
    UB(i32),
    /// Argument contained invalid UTF-8.
    UTF8,
    /// The multiplexing coordinator went away before a reply arrived.
    LostContextFuture,
}

/// Identifies an asynchronous query.
///
/// The identity is allocated on the safe side of the boundary and crosses the
/// engine interface as a plain numeric token, never as a pointer, so no
/// ownership travels with it.
#[derive(Clone, Copy, Debug, PartialEq, Eq, Hash, Structural)]
pub struct AsyncID(usize);

impl AsyncID {
    /// The numeric token this identity is carried as.
    pub closed spec fn spec_token(self) -> usize {
        self.0
    }

    /// Recovers an identity from the token the engine handed back.
    /// This is a numeric reinterpretation: the token is a value, not a resource.
    pub fn from_token(token: usize) -> (r: AsyncID)
        ensures
            r.spec_token() == token,
    {
        AsyncID(token)
    }

    /// The token to pass across the engine interface for this query.
    pub fn token(self) -> (r: usize)
        ensures
            r == self.spec_token(),
    {
        self.0
    }
}

/// Maps an engine return code to a typed result: the engine documents zero as
/// success and any other value as an error code.
pub fn check_code(code: i32) -> (r: Result<()>)
    ensures
        code == 0 <==> r is Ok,
        code != 0 ==> r == Result::<()>::Err(Error::UB(code)),
{
    if code == 0 {
        Ok(())
    } else {
        Err(Error::UB(code))
    }
}

/// True when the byte sequence holds a zero byte, which the engine's C string
/// arguments cannot carry.
pub open spec fn has_nul(bytes: Seq<u8>) -> bool {
    exists|i: int| 0 <= i < bytes.len() && bytes[i] == 0u8
}

/// The exact byte content the engine receives for a textual argument: the
/// UTF-8 bytes followed by one terminating zero byte. A name holding an
/// interior zero byte cannot be represented and is rejected with
/// [`Error::NullByte`].
pub fn name_to_c_bytes(name: &str) -> (r: Result<Vec<u8>>)
    ensures
        match r {
            Ok(v) => !has_nul(name.spec_bytes()) && v@ == name.spec_bytes().push(0u8),
            Err(e) => has_nul(name.spec_bytes()) && e == Error::NullByte,
        },
{
    let bytes = name.as_bytes();
    let mut out: Vec<u8> = Vec::new();
    let mut i: usize = 0;
    while i < bytes.len()
        invariant
            0 <= i <= bytes@.len(),
            bytes@ == name.spec_bytes(),
            out@ == bytes@.subrange(0, i as int),
            forall|j: int| 0 <= j < i ==> bytes@[j] != 0u8,
        decreases bytes@.len() - i,
    {
        let b = *vstd::slice::slice_index_get(bytes, i);
        if b == 0 {
            return Err(Error::NullByte);
        }
        out.push(b);
        i += 1;
    }
    assert(out@ =~= name.spec_bytes());
    out.push(0u8);
    Ok(out)
}

} // verus!
