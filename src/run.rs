//! The steps of one mint run as a state machine: the caller performs each
//! action (a remote call, a file read) and hands back what came of it.
use vstd::prelude::*;
use ic_agent::AgentError;
use crate::external::{agent_failure, failure_of};
use crate::minter::{check_interfaces, classify_failure, classify_spec, mint_outcome, offers_mint};
use crate::model::{CallFailure, CallStep, InterfaceId, MintError, MintReceipt, MinterError};

verus! {

/// Where a run stands.
#[derive(Clone, Copy, Debug, PartialEq, Eq, Structural)]
pub enum RunState {
    /// The `supportedInterfaces` query has been sent.
    AwaitingInterfaces,
    /// The asset file is being read.
    AwaitingFile,
    /// The `mint` call has been submitted and is awaited to finality.
    AwaitingMint,
    /// The run is over.
    Finished,
}

/// What came of the last action.
pub enum RunEvent {
    /// The capability query returned this list.
    InterfacesReplied(Vec<InterfaceId>),
    /// The asset file was read.
    FileRead,
    /// The asset file could not be read.
    FileUnreadable,
    /// The mint call returned this decoded reply.
    MintReplied(Result<MintReceipt, MintError>),
    /// The pending remote call failed.
    CallFailed(CallFailure),
}

/// What the caller does next.
#[derive(Clone, Copy, Debug, PartialEq, Eq, Structural)]
pub enum RunAction {
    /// Read the asset file.
    ReadFile,
    /// Build the metadata and submit the mint call.
    SubmitMint,
    /// Report the receipt; the run succeeded.
    Succeed(MintReceipt),
    /// Report the error; the run failed.
    Fail(MinterError),
}

pub open spec fn step_spec(state: RunState, event: RunEvent) -> (RunState, RunAction) {
    match (state, event) {
        (RunState::AwaitingInterfaces, RunEvent::InterfacesReplied(l)) =>
            if offers_mint(l@) {
                (RunState::AwaitingFile, RunAction::ReadFile)
            } else {
                (RunState::Finished, RunAction::Fail(MinterError::UnsupportedOperation))
            },
        (RunState::AwaitingInterfaces, RunEvent::CallFailed(f)) =>
            (RunState::Finished, RunAction::Fail(classify_spec(f, CallStep::Capabilities))),
        (RunState::AwaitingFile, RunEvent::FileRead) => (RunState::AwaitingMint, RunAction::SubmitMint),
        (RunState::AwaitingFile, RunEvent::FileUnreadable) =>
            (RunState::Finished, RunAction::Fail(MinterError::Io)),
        (RunState::AwaitingMint, RunEvent::MintReplied(Ok(receipt))) =>
            (RunState::Finished, RunAction::Succeed(receipt)),
        (RunState::AwaitingMint, RunEvent::MintReplied(Err(MintError::Unauthorized))) =>
            (RunState::Finished, RunAction::Fail(MinterError::Unauthorized)),
        (RunState::AwaitingMint, RunEvent::CallFailed(f)) =>
            (RunState::Finished, RunAction::Fail(classify_spec(f, CallStep::Mint))),
        _ => (RunState::Finished, RunAction::Fail(MinterError::Transport)),
    }
}

/// The first state of a run: the capability query goes out first.
pub fn start() -> (r: RunState)
    ensures
        r == RunState::AwaitingInterfaces,
{
    RunState::AwaitingInterfaces
}

/// The next state and action after `event` in `state`. An event that does
/// not belong to the state ends the run as a protocol failure.
pub fn step(state: RunState, event: RunEvent) -> (r: (RunState, RunAction))
    ensures
        r == step_spec(state, event),
{
    match (state, event) {
        (RunState::AwaitingInterfaces, RunEvent::InterfacesReplied(l)) => match check_interfaces(&l) {
            Ok(()) => (RunState::AwaitingFile, RunAction::ReadFile),
            Err(e) => (RunState::Finished, RunAction::Fail(e)),
        },
        (RunState::AwaitingInterfaces, RunEvent::CallFailed(f)) =>
            (RunState::Finished, RunAction::Fail(classify_failure(f, CallStep::Capabilities))),
        (RunState::AwaitingFile, RunEvent::FileRead) => (RunState::AwaitingMint, RunAction::SubmitMint),
        (RunState::AwaitingFile, RunEvent::FileUnreadable) =>
            (RunState::Finished, RunAction::Fail(MinterError::Io)),
        (RunState::AwaitingMint, RunEvent::MintReplied(reply)) => match mint_outcome(reply) {
            Ok(receipt) => (RunState::Finished, RunAction::Succeed(receipt)),
            Err(e) => (RunState::Finished, RunAction::Fail(e)),
        },
        (RunState::AwaitingMint, RunEvent::CallFailed(f)) =>
            (RunState::Finished, RunAction::Fail(classify_failure(f, CallStep::Mint))),
        _ => (RunState::Finished, RunAction::Fail(MinterError::Transport)),
    }
}

/// The next state and action when the pending remote call failed with the
/// agent's error `e`: the error is classified by its kind.
pub fn step_on_agent_error(state: RunState, e: &AgentError) -> (r: (RunState, RunAction))
    ensures
        r == step_spec(state, RunEvent::CallFailed(failure_of(*e))),
{
    let f = agent_failure(e);
    step(state, RunEvent::CallFailed(f))
}

} // verus!
