//! The calls that the minter's logic makes into other crates, each with the
//! contract that the rest of the library relies on.
use vstd::prelude::*;
use ic_agent::AgentError;
use sha2::Digest;
use crate::model::CallFailure;

verus! {

#[verifier::external_type_specification]
#[verifier::external_body]
pub struct ExAgentError(AgentError);

/// The SHA-256 digest of a byte string.
pub uninterp spec fn sha256_of(data: Seq<u8>) -> Seq<u8>;

/// The media type that mime_guess's static table gives first for a path's
/// extension, if it knows one.
pub uninterp spec fn mime_guess_of(path: Seq<char>) -> Option<Seq<char>>;

/// The reject code that an agent error carries: that of a replica reject
/// (`AgentError::ReplicaError`), none for every other kind of error.
pub uninterp spec fn reject_code_of(e: AgentError) -> Option<u64>;

/// Whether an agent error is `AgentError::TimeoutWaitingForResponse`, what
/// `call_and_wait` returns once its waiter gives up.
pub uninterp spec fn is_wait_timeout(e: AgentError) -> bool;

/// How an agent error fails a call, by its kind.
pub open spec fn failure_of(e: AgentError) -> CallFailure {
    match reject_code_of(e) {
        Some(c) => CallFailure::Rejected(c),
        None => if is_wait_timeout(e) { CallFailure::TimedOut } else { CallFailure::Other },
    }
}

/// Relies on sha2's `Sha256::digest` (version 0.9): the 32-byte SHA-256
/// digest of the bytes, a function of the bytes alone.
#[verifier::external_body]
pub(crate) fn sha256(data: &[u8]) -> (r: Vec<u8>)
    ensures
        r@ == sha256_of(data@),
        r@.len() == 32,
{
    sha2::Sha256::digest(data).to_vec()
}

/// Relies on `mime_guess::from_path(..).first()`, rendered with `Display`:
/// the first media type known for the path's extension, from a static table.
#[verifier::external_body]
pub(crate) fn guess_mime(path: &str) -> (r: Option<String>)
    ensures
        r.is_some() == mime_guess_of(path@).is_some(),
        r.is_some() ==> r->Some_0@ == mime_guess_of(path@)->Some_0,
{
    mime_guess::from_path(path).first().map(|m| m.to_string())
}

/// Relies on the variants of ic-agent's `AgentError` (version 0.10): a
/// replica reject carries its reject code, and `TimeoutWaitingForResponse`
/// is what `call_and_wait` returns once the waiter gives up.
#[verifier::external_body]
pub(crate) fn agent_failure(e: &AgentError) -> (r: CallFailure)
    ensures
        reject_code_of(*e) matches Some(c) ==> r == CallFailure::Rejected(c),
        reject_code_of(*e) is None ==> (r == CallFailure::TimedOut <==> is_wait_timeout(*e)),
        reject_code_of(*e) is None && !is_wait_timeout(*e) ==> r == CallFailure::Other,
{
    match e {
        AgentError::ReplicaError { reject_code, .. } => CallFailure::Rejected(*reject_code),
        AgentError::TimeoutWaitingForResponse() => CallFailure::TimedOut,
        _ => CallFailure::Other,
    }
}

} // verus!
