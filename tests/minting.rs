use df_minter::decimal::decimal_text;
use df_minter::finality::{FinalityWait, WaitStep, STANDARD_THROTTLE_MS, STANDARD_TIMEOUT_MS};
use df_minter::minter::{
    assemble_metadata, check_interfaces, classify_failure, content_type_or_default,
    error_message, identity_config_path, identity_pem_path, mint_outcome, needs_root_key, network_url,
    prepare_metadata, success_message, supports_mint,
};
use df_minter::model::{
    CallFailure, CallStep, DefaultIdentity, InterfaceId, MetadataPart, MetadataPurpose, MetadataVal,
    MintError, MintReceipt, MinterError, Network,
};
use df_minter::run::{start, step, step_on_agent_error, RunAction, RunEvent, RunState};
use ic_agent::AgentError;

fn hex(bytes: &[u8]) -> String {
    bytes.iter().map(|b| format!("{:02x}", b)).collect()
}

fn hash_of(part: &MetadataPart) -> Vec<u8> {
    match &part.key_val_data[1] {
        ("contentHash", MetadataVal::BlobContent(b)) => b.clone(),
        _ => panic!("no content hash entry"),
    }
}

fn content_type_of(part: &MetadataPart) -> String {
    match &part.key_val_data[2] {
        ("contentType", MetadataVal::TextContent(t)) => t.clone(),
        _ => panic!("no content type entry"),
    }
}

#[test]
fn digest_is_deterministic() {
    let data: Vec<u8> = vec![1, 2, 3, 4, 5];
    let a = prepare_metadata(&data, "a.bin");
    let b = prepare_metadata(&data, "other/place.png");
    assert_eq!(hash_of(&a), hash_of(&b));
    assert_eq!(hash_of(&a).len(), 32);
}

#[test]
fn digest_is_sha256() {
    let data = b"abc".to_vec();
    let part = prepare_metadata(&data, "abc.txt");
    assert_eq!(
        hex(&hash_of(&part)),
        "ba7816bf8f01cfea414140de5dae2223b00361a396177a9cb410ff61f20015ad"
    );
}

#[test]
fn content_type_is_guessed_from_extension() {
    let data: Vec<u8> = vec![0; 4];
    assert_eq!(content_type_of(&prepare_metadata(&data, "picture.png")), "image/png");
    assert_eq!(
        content_type_of(&prepare_metadata(&data, "asset.nosuchextension")),
        "application/octet-stream"
    );
}

#[test]
fn content_type_default() {
    assert_eq!(content_type_or_default(None), "application/octet-stream");
    assert_eq!(content_type_or_default(Some(String::from("text/plain"))), "text/plain");
}

#[test]
fn metadata_layout() {
    let data: Vec<u8> = vec![9, 8, 7];
    let part = assemble_metadata(&data, vec![1, 2], String::from("text/plain"));
    assert_eq!(part.purpose, MetadataPurpose::Rendered);
    assert_eq!(part.data, &data[..]);
    assert_eq!(part.key_val_data.len(), 3);
    assert!(matches!(part.key_val_data[0], ("locationType", MetadataVal::Nat8Content(4))));
    assert_eq!(hash_of(&part), vec![1, 2]);
    assert_eq!(content_type_of(&part), "text/plain");
}

#[test]
fn missing_mint_capability_is_refused() {
    let interfaces = vec![InterfaceId::Burn, InterfaceId::Approval];
    assert!(!supports_mint(&interfaces));
    assert_eq!(check_interfaces(&interfaces), Err(MinterError::UnsupportedOperation));
    assert_eq!(check_interfaces(&vec![]), Err(MinterError::UnsupportedOperation));
    let (state, action) = step(start(), RunEvent::InterfacesReplied(interfaces));
    assert_eq!(state, RunState::Finished);
    assert_eq!(action, RunAction::Fail(MinterError::UnsupportedOperation));
}

#[test]
fn mint_capability_is_accepted() {
    let interfaces = vec![InterfaceId::TransactionHistory, InterfaceId::Mint];
    assert!(supports_mint(&interfaces));
    assert_eq!(check_interfaces(&interfaces), Ok(()));
}

#[test]
fn missing_entry_point_is_not_a_target() {
    let (_, a) = step(RunState::AwaitingInterfaces, RunEvent::CallFailed(CallFailure::Rejected(3)));
    assert_eq!(a, RunAction::Fail(MinterError::NotATargetContract(CallStep::Capabilities)));
    let (_, b) = step(RunState::AwaitingMint, RunEvent::CallFailed(CallFailure::Rejected(3)));
    assert_eq!(b, RunAction::Fail(MinterError::NotATargetContract(CallStep::Mint)));
}

#[test]
fn other_failures_are_transport() {
    assert_eq!(classify_failure(CallFailure::Rejected(4), CallStep::Mint), MinterError::Transport);
    assert_eq!(classify_failure(CallFailure::Other, CallStep::Capabilities), MinterError::Transport);
    assert_eq!(classify_failure(CallFailure::TimedOut, CallStep::Mint), MinterError::FinalityTimeout);
    assert_eq!(classify_failure(CallFailure::TimedOut, CallStep::Capabilities), MinterError::Transport);
}

#[test]
fn agent_errors_are_classified_by_kind() {
    let reject = AgentError::ReplicaError { reject_code: 3, reject_message: String::from("no method") };
    assert_eq!(
        step_on_agent_error(RunState::AwaitingInterfaces, &reject),
        (RunState::Finished, RunAction::Fail(MinterError::NotATargetContract(CallStep::Capabilities)))
    );
    assert_eq!(
        step_on_agent_error(RunState::AwaitingMint, &reject),
        (RunState::Finished, RunAction::Fail(MinterError::NotATargetContract(CallStep::Mint)))
    );
    let other = AgentError::ReplicaError { reject_code: 5, reject_message: String::from("trapped") };
    assert_eq!(
        step_on_agent_error(RunState::AwaitingMint, &other),
        (RunState::Finished, RunAction::Fail(MinterError::Transport))
    );
    assert_eq!(
        step_on_agent_error(RunState::AwaitingMint, &AgentError::TimeoutWaitingForResponse()),
        (RunState::Finished, RunAction::Fail(MinterError::FinalityTimeout))
    );
}

#[test]
fn wait_backs_off_and_times_out() {
    let mut w = FinalityWait::standard();
    assert_eq!(w.throttle_ms, STANDARD_THROTTLE_MS);
    assert_eq!(w.next_step(0), WaitStep::Sleep(500));
    assert_eq!(w.next_step(500), WaitStep::Sleep(1000));
    assert_eq!(w.next_step(1500), WaitStep::Sleep(2000));
    assert_eq!(w.next_step(3500), WaitStep::Sleep(4000));
    assert_eq!(w.next_step(7500), WaitStep::Sleep(8000));
    assert_eq!(w.next_step(15500), WaitStep::Sleep(8000));
    assert_eq!(w.sleeps, 6);
    assert_eq!(w.next_step(STANDARD_TIMEOUT_MS), WaitStep::TimedOut);
    assert_eq!(w.next_step(STANDARD_TIMEOUT_MS + 1), WaitStep::TimedOut);
    w.restart();
    assert_eq!(w.next_step(0), WaitStep::Sleep(500));
}

#[test]
fn wait_never_sleeps_past_the_deadline() {
    let mut w = FinalityWait::standard();
    for elapsed in [0, 500, 1500, 3500, 7500] {
        assert!(matches!(w.next_step(elapsed), WaitStep::Sleep(_)));
    }
    assert_eq!(w.next_step(296_000), WaitStep::Sleep(4000));
    assert_eq!(w.next_step(299_000), WaitStep::Sleep(1000));
    assert_eq!(w.next_step(299_999), WaitStep::Sleep(500));
    assert_eq!(w.next_step(300_000), WaitStep::TimedOut);
}

#[test]
fn wait_timeout_is_finality_timeout() {
    let mut w = FinalityWait::new(100, 1000, 400);
    assert_eq!(w.next_step(0), WaitStep::Sleep(100));
    assert_eq!(w.next_step(1000), WaitStep::TimedOut);
    let (state, action) = step(RunState::AwaitingMint, RunEvent::CallFailed(CallFailure::TimedOut));
    assert_eq!(state, RunState::Finished);
    assert_eq!(action, RunAction::Fail(MinterError::FinalityTimeout));
}

#[test]
fn unauthorized_reply_is_an_error() {
    assert_eq!(mint_outcome(Err(MintError::Unauthorized)), Err(MinterError::Unauthorized));
    let (_, action) = step(RunState::AwaitingMint, RunEvent::MintReplied(Err(MintError::Unauthorized)));
    assert_eq!(action, RunAction::Fail(MinterError::Unauthorized));
}

#[test]
fn unreadable_file_is_io_error() {
    let (state, action) = step(RunState::AwaitingFile, RunEvent::FileUnreadable);
    assert_eq!(state, RunState::Finished);
    assert_eq!(action, RunAction::Fail(MinterError::Io));
}

#[test]
fn out_of_place_event_ends_the_run() {
    let (state, action) = step(RunState::AwaitingInterfaces, RunEvent::FileRead);
    assert_eq!(state, RunState::Finished);
    assert_eq!(action, RunAction::Fail(MinterError::Transport));
    let (_, again) = step(RunState::Finished, RunEvent::FileRead);
    assert_eq!(again, RunAction::Fail(MinterError::Transport));
}

#[test]
fn local_end_to_end_scenario() {
    assert_eq!(network_url(Network::Local), "http://localhost:8000");
    assert!(needs_root_key(Network::Local));
    let state = start();
    assert_eq!(state, RunState::AwaitingInterfaces);
    let (state, action) = step(state, RunEvent::InterfacesReplied(vec![InterfaceId::Mint, InterfaceId::Burn]));
    assert_eq!(action, RunAction::ReadFile);
    let data: Vec<u8> = vec![0, 1, 2, 3, 4, 5, 6, 7, 8, 9];
    let (state, action) = step(state, RunEvent::FileRead);
    assert_eq!(action, RunAction::SubmitMint);
    let part = prepare_metadata(&data, "asset");
    assert_eq!(part.purpose, MetadataPurpose::Rendered);
    assert!(matches!(part.key_val_data[0], ("locationType", MetadataVal::Nat8Content(4))));
    assert_eq!(hash_of(&part).len(), 32);
    assert_eq!(content_type_of(&part), "application/octet-stream");
    assert_eq!(part.data.len(), 10);
    let receipt = MintReceipt { id: 7, token_id: 42 };
    let (state, action) = step(state, RunEvent::MintReplied(Ok(receipt)));
    assert_eq!(state, RunState::Finished);
    assert_eq!(action, RunAction::Succeed(receipt));
    let owner = "aaaaa-aa";
    let message = success_message(receipt, owner);
    assert_eq!(message, "Successfully minted token 42 to aaaaa-aa (transaction id 7)");
    assert!(message.contains("42") && message.contains(owner) && message.contains('7'));
}

#[test]
fn decimal_rendering() {
    assert_eq!(decimal_text(0), "0");
    assert_eq!(decimal_text(7), "7");
    assert_eq!(decimal_text(42), "42");
    assert_eq!(decimal_text(1000), "1000");
    assert_eq!(decimal_text(u128::MAX), u128::MAX.to_string());
}

#[test]
fn mainnet_endpoint() {
    assert_eq!(network_url(Network::Ic), "https://ic0.app");
    assert!(!needs_root_key(Network::Ic));
}

#[test]
fn identity_paths() {
    assert_eq!(identity_config_path("/home/u"), "/home/u/.config/dfx/identity.json");
    let id = DefaultIdentity::new(String::from("alice"));
    assert_eq!(id.default_name(), "alice");
    assert_eq!(identity_pem_path("/home/u", &id), "/home/u/.config/dfx/identity/alice/identity.pem");
}

#[test]
fn large_numbers_in_message() {
    let receipt = MintReceipt { id: u128::MAX, token_id: u64::MAX };
    assert_eq!(
        success_message(receipt, "p"),
        format!("Successfully minted token {} to p (transaction id {})", u64::MAX, u128::MAX)
    );
    assert_eq!(
        success_message(MintReceipt { id: 0, token_id: 0 }, "p"),
        "Successfully minted token 0 to p (transaction id 0)"
    );
}

#[test]
fn error_messages() {
    let c = "rrkah-fqaaa-aaaaa-aaaaq-cai";
    assert_eq!(
        error_message(MinterError::NotATargetContract(CallStep::Capabilities), c),
        format!("canister {c} does not appear to be a DIP-721 NFT canister")
    );
    assert_eq!(
        error_message(MinterError::NotATargetContract(CallStep::Mint), c),
        format!("canister {c} does not support minting")
    );
    assert_eq!(
        error_message(MinterError::UnsupportedOperation, c),
        format!("canister {c} does not support minting")
    );
    assert_eq!(
        error_message(MinterError::Unauthorized, c),
        "You aren't authorized as a custodian of that canister."
    );
    assert_eq!(
        error_message(MinterError::Configuration, c),
        "Configure an identity in `dfx` or provide an --identity flag"
    );
    assert_eq!(error_message(MinterError::Io, c), "the asset file could not be read");
    assert_eq!(error_message(MinterError::Transport, c), "the call to the replica failed");
    assert_eq!(
        error_message(MinterError::FinalityTimeout, c),
        "timed out waiting for the mint to be finalized"
    );
}
