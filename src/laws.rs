//! Properties that hold across the library's functions.
use vstd::prelude::*;
use crate::finality::{FinalityWait, WaitStep};
use crate::minter::{classify_spec, offers_mint, prepared, NO_SUCH_ENTRY_POINT};
use crate::model::{CallFailure, CallStep, InterfaceId, MetadataPart, MintError, MinterError};
use crate::run::{step_spec, RunAction, RunEvent, RunState};

verus! {

/// The content hash is a function of the bytes alone: two parts prepared
/// from equal bytes, whatever their paths, carry the same 32-byte hash.
pub proof fn lemma_content_hash_deterministic(
    p1: MetadataPart,
    p2: MetadataPart,
    data1: Seq<u8>,
    data2: Seq<u8>,
    path1: Seq<char>,
    path2: Seq<char>,
)
    requires
        prepared(p1, data1, path1),
        prepared(p2, data2, path2),
        data1 == data2,
    ensures
        p1.key_val_data@[1].1->BlobContent_0@ == p2.key_val_data@[1].1->BlobContent_0@,
        p1.key_val_data@[1].1->BlobContent_0@.len() == 32,
{
}

/// A capability list without `Mint` ends the run with
/// `UnsupportedOperation`, and the mint call is never submitted: only a run
/// that is reading the asset file goes on to submit, and a finished run does
/// nothing more.
pub proof fn lemma_no_mint_without_capability(interfaces: Vec<InterfaceId>)
    requires
        !offers_mint(interfaces@),
    ensures
        step_spec(RunState::AwaitingInterfaces, RunEvent::InterfacesReplied(interfaces))
            == (RunState::Finished, RunAction::Fail(MinterError::UnsupportedOperation)),
        forall|s: RunState, e: RunEvent| #[trigger] step_spec(s, e).1 == RunAction::SubmitMint
            ==> s == RunState::AwaitingFile,
        forall|e: RunEvent| #[trigger] step_spec(RunState::Finished, e).0 == RunState::Finished,
{
}

/// A "no such entry point" reject surfaces as `NotATargetContract` from the
/// capability query and from the mint call alike, never as a transport error.
pub proof fn lemma_missing_entry_point_is_not_a_target()
    ensures
        step_spec(RunState::AwaitingInterfaces, RunEvent::CallFailed(CallFailure::Rejected(NO_SUCH_ENTRY_POINT)))
            == (RunState::Finished, RunAction::Fail(MinterError::NotATargetContract(CallStep::Capabilities))),
        step_spec(RunState::AwaitingMint, RunEvent::CallFailed(CallFailure::Rejected(NO_SUCH_ENTRY_POINT)))
            == (RunState::Finished, RunAction::Fail(MinterError::NotATargetContract(CallStep::Mint))),
        forall|step: CallStep| #[trigger] classify_spec(CallFailure::Rejected(NO_SUCH_ENTRY_POINT), step)
            != MinterError::Transport,
{
}

/// A mint reply that carries `Unauthorized` ends the run with the
/// `Unauthorized` error, never with a receipt.
pub proof fn lemma_unauthorized_is_an_error()
    ensures
        step_spec(RunState::AwaitingMint, RunEvent::MintReplied(Err(MintError::Unauthorized)))
            == (RunState::Finished, RunAction::Fail(MinterError::Unauthorized)),
{
}

/// Every step taken before the deadline sleeps at least the throttle, so
/// the poll that follows comes no sooner than the throttle after the one
/// before it (the first poll goes out on submission); a sleep ends by the
/// deadline unless less than a throttle was left; any step at or past the
/// deadline gives up and the wait stays given up; and giving up on the mint
/// call surfaces as `FinalityTimeout`.
pub proof fn lemma_wait_times_out(w: FinalityWait, elapsed_ms: u64)
    requires
        w.wf(),
    ensures
        elapsed_ms < w.timeout_ms ==> (w.step_spec(elapsed_ms) matches WaitStep::Sleep(d)
            && w.throttle_ms <= d
            && (elapsed_ms + d <= w.timeout_ms || d == w.throttle_ms)),
        elapsed_ms < w.timeout_ms ==> w.after_step(elapsed_ms).wf(),
        elapsed_ms >= w.timeout_ms ==> w.step_spec(elapsed_ms) == WaitStep::TimedOut,
        elapsed_ms >= w.timeout_ms ==> w.after_step(elapsed_ms).step_spec(elapsed_ms) == WaitStep::TimedOut,
        step_spec(RunState::AwaitingMint, RunEvent::CallFailed(CallFailure::TimedOut))
            == (RunState::Finished, RunAction::Fail(MinterError::FinalityTimeout)),
{
}

} // verus!
