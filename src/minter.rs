//! The decisions of a mint run: where to connect, where the identity lives,
//! how each remote failure is classified, which canisters can mint, what
//! metadata is sent, and what is reported back.
use vstd::prelude::*;
use crate::decimal::{decimal, decimal_text};
use crate::external::{guess_mime, mime_guess_of, sha256, sha256_of};
use crate::model::{
    CallFailure, CallStep, DefaultIdentity, InterfaceId, MetadataPart, MetadataPurpose,
    MetadataVal, MintError, MintReceipt, MinterError, Network,
};

verus! {

/// The reject code with which a replica answers a call to a method that the
/// canister does not have.
pub const NO_SUCH_ENTRY_POINT: u64 = 3;

/// The `locationType` code for an asset whose bytes travel with the token.
pub const LOCATION_IN_TOKEN: u8 = 4;

pub open spec fn url_spec(network: Network) -> Seq<char> {
    match network {
        Network::Local => "http://localhost:8000"@,
        Network::Ic => "https://ic0.app"@,
    }
}

/// The replica endpoint of a network.
pub fn network_url(network: Network) -> (r: &'static str)
    ensures
        r@ == url_spec(network),
{
    match network {
        Network::Local => "http://localhost:8000",
        Network::Ic => "https://ic0.app",
    }
}

/// Whether the network's root key must be fetched before signed calls: a
/// local replica makes a new one each time it starts.
pub fn needs_root_key(network: Network) -> (r: bool)
    ensures
        r == (network == Network::Local),
{
    match network {
        Network::Local => true,
        Network::Ic => false,
    }
}

/// The file that names the default identity, under the user's home.
pub fn identity_config_path(home: &str) -> (r: String)
    ensures
        r@ == home@ + "/.config/dfx/identity.json"@,
{
    String::from_str(home).concat("/.config/dfx/identity.json")
}

/// The PEM key file of the identity that `identity` names.
pub fn identity_pem_path(home: &str, identity: &DefaultIdentity) -> (r: String)
    ensures
        r@ == home@ + "/.config/dfx/identity/"@ + identity.name() + "/identity.pem"@,
{
    let mut r = String::from_str(home);
    r.append("/.config/dfx/identity/");
    r.append(identity.default_name());
    r.append("/identity.pem");
    r
}

pub open spec fn classify_spec(failure: CallFailure, step: CallStep) -> MinterError {
    match failure {
        CallFailure::Rejected(code) => if code == NO_SUCH_ENTRY_POINT {
            MinterError::NotATargetContract(step)
        } else {
            MinterError::Transport
        },
        CallFailure::TimedOut => match step {
            CallStep::Mint => MinterError::FinalityTimeout,
            CallStep::Capabilities => MinterError::Transport,
        },
        CallFailure::Other => MinterError::Transport,
    }
}

/// The error that a failed remote call surfaces as. Only the mint call
/// waits for finality, so only there does a timeout mean `FinalityTimeout`.
pub fn classify_failure(failure: CallFailure, step: CallStep) -> (r: MinterError)
    ensures
        r == classify_spec(failure, step),
{
    match failure {
        CallFailure::Rejected(code) => if code == NO_SUCH_ENTRY_POINT {
            MinterError::NotATargetContract(step)
        } else {
            MinterError::Transport
        },
        CallFailure::TimedOut => match step {
            CallStep::Mint => MinterError::FinalityTimeout,
            CallStep::Capabilities => MinterError::Transport,
        },
        CallFailure::Other => MinterError::Transport,
    }
}

pub open spec fn offers_mint(interfaces: Seq<InterfaceId>) -> bool {
    exists|i: int| 0 <= i < interfaces.len() && interfaces[i] == InterfaceId::Mint
}

/// Whether the reported interfaces include `Mint`.
pub fn supports_mint(interfaces: &Vec<InterfaceId>) -> (r: bool)
    ensures
        r == offers_mint(interfaces@),
{
    let mut i: usize = 0;
    while i < interfaces.len()
        invariant
            i <= interfaces@.len(),
            forall|j: int| 0 <= j < i ==> interfaces@[j] != InterfaceId::Mint,
        decreases interfaces@.len() - i,
    {
        if interfaces[i] == InterfaceId::Mint {
            return true;
        }
        i = i + 1;
    }
    false
}

/// The decision on the capability query's reply: a canister that does not
/// offer `Mint` is refused before any mint call is made.
pub fn check_interfaces(interfaces: &Vec<InterfaceId>) -> (r: Result<(), MinterError>)
    ensures
        r is Ok <==> offers_mint(interfaces@),
        r is Err ==> r == Err::<(), MinterError>(MinterError::UnsupportedOperation),
{
    if supports_mint(interfaces) {
        Ok(())
    } else {
        Err(MinterError::UnsupportedOperation)
    }
}

pub open spec fn content_type_spec(guess: Option<Seq<char>>) -> Seq<char> {
    match guess {
        Some(t) => t,
        None => "application/octet-stream"@,
    }
}

/// The content type to record: the guess, or the generic binary type.
pub fn content_type_or_default(guess: Option<String>) -> (r: String)
    ensures
        r@ == content_type_spec(match guess { Some(t) => Some(t@), None => None }),
{
    match guess {
        Some(t) => t,
        None => String::from_str("application/octet-stream"),
    }
}

/// The part describes, for rendering, the bytes `data` with the given
/// digest and content type, under the keys `locationType`, `contentHash`
/// and `contentType`, in that order.
pub open spec fn describes(part: MetadataPart, data: Seq<u8>, digest: Seq<u8>, content_type: Seq<char>) -> bool {
    let kv = part.key_val_data@;
    &&& part.purpose == MetadataPurpose::Rendered
    &&& part.data@ == data
    &&& kv.len() == 3
    &&& kv[0].0@ == "locationType"@
    &&& kv[0].1 == MetadataVal::Nat8Content(LOCATION_IN_TOKEN)
    &&& kv[1].0@ == "contentHash"@
    &&& kv[1].1 is BlobContent && kv[1].1->BlobContent_0@ == digest
    &&& kv[2].0@ == "contentType"@
    &&& kv[2].1 is TextContent && kv[2].1->TextContent_0@ == content_type
}

/// The metadata part sent with a mint, from the asset bytes, their digest
/// and their content type.
pub fn assemble_metadata<'a>(data: &'a [u8], digest: Vec<u8>, content_type: String) -> (r: MetadataPart<'a>)
    ensures
        describes(r, data@, digest@, content_type@),
        r.keys_distinct(),
{
    let mut key_val_data: Vec<(&'static str, MetadataVal)> = Vec::new();
    key_val_data.push(("locationType", MetadataVal::Nat8Content(LOCATION_IN_TOKEN)));
    key_val_data.push(("contentHash", MetadataVal::BlobContent(digest)));
    key_val_data.push(("contentType", MetadataVal::TextContent(content_type)));
    proof {
        reveal_strlit("locationType");
        reveal_strlit("contentHash");
        reveal_strlit("contentType");
        assert("contentHash"@[7] != "contentType"@[7]);
        assert("locationType"@.len() != "contentHash"@.len());
        assert("locationType"@.len() != "contentType"@.len());
    }
    MetadataPart { purpose: MetadataPurpose::Rendered, key_val_data, data }
}

/// The part is the one prepared for the bytes `data` read from `path`; its
/// hash is 32 bytes long.
pub open spec fn prepared(part: MetadataPart, data: Seq<u8>, path: Seq<char>) -> bool {
    &&& describes(part, data, sha256_of(data), content_type_spec(mime_guess_of(path)))
    &&& sha256_of(data).len() == 32
}

/// The metadata part for the asset bytes read from `path`: their SHA-256
/// digest, and the media type guessed from the path's extension.
pub fn prepare_metadata<'a>(data: &'a [u8], path: &str) -> (r: MetadataPart<'a>)
    ensures
        prepared(r, data@, path@),
        r.keys_distinct(),
{
    let digest = sha256(data);
    let content_type = content_type_or_default(guess_mime(path));
    assemble_metadata(data, digest, content_type)
}

/// The outcome of a mint from the canister's decoded reply.
pub fn mint_outcome(reply: Result<MintReceipt, MintError>) -> (r: Result<MintReceipt, MinterError>)
    ensures
        reply is Ok ==> r == Ok::<MintReceipt, MinterError>(reply->Ok_0),
        reply matches Err(MintError::Unauthorized) ==> r == Err::<MintReceipt, MinterError>(MinterError::Unauthorized),
{
    match reply {
        Ok(receipt) => Ok(receipt),
        Err(MintError::Unauthorized) => Err(MinterError::Unauthorized),
    }
}

pub open spec fn success_spec(receipt: MintReceipt, owner: Seq<char>) -> Seq<char> {
    "Successfully minted token "@ + decimal(receipt.token_id as nat) + " to "@ + owner
        + " (transaction id "@ + decimal(receipt.id as nat) + ")"@
}

/// The confirmation line printed after a successful mint.
pub fn success_message(receipt: MintReceipt, owner: &str) -> (r: String)
    ensures
        r@ == success_spec(receipt, owner@),
{
    let mut r = String::from_str("Successfully minted token ");
    let token = decimal_text(receipt.token_id as u128);
    r.append(token.as_str());
    r.append(" to ");
    r.append(owner);
    r.append(" (transaction id ");
    let id = decimal_text(receipt.id);
    r.append(id.as_str());
    r.append(")");
    r
}

pub open spec fn error_spec(e: MinterError, canister: Seq<char>) -> Seq<char> {
    match e {
        MinterError::Configuration => "Configure an identity in `dfx` or provide an --identity flag"@,
        MinterError::Io => "the asset file could not be read"@,
        MinterError::Transport => "the call to the replica failed"@,
        MinterError::NotATargetContract(CallStep::Capabilities) =>
            "canister "@ + canister + " does not appear to be a DIP-721 NFT canister"@,
        MinterError::NotATargetContract(CallStep::Mint) =>
            "canister "@ + canister + " does not support minting"@,
        MinterError::UnsupportedOperation => "canister "@ + canister + " does not support minting"@,
        MinterError::Unauthorized => "You aren't authorized as a custodian of that canister."@,
        MinterError::FinalityTimeout => "timed out waiting for the mint to be finalized"@,
    }
}

/// The message reported for an error of a run against `canister`.
pub fn error_message(e: MinterError, canister: &str) -> (r: String)
    ensures
        r@ == error_spec(e, canister@),
{
    match e {
        MinterError::Configuration =>
            String::from_str("Configure an identity in `dfx` or provide an --identity flag"),
        MinterError::Io => String::from_str("the asset file could not be read"),
        MinterError::Transport => String::from_str("the call to the replica failed"),
        MinterError::NotATargetContract(CallStep::Capabilities) => {
            let mut r = String::from_str("canister ");
            r.append(canister);
            r.append(" does not appear to be a DIP-721 NFT canister");
            r
        },
        MinterError::NotATargetContract(CallStep::Mint) | MinterError::UnsupportedOperation => {
            let mut r = String::from_str("canister ");
            r.append(canister);
            r.append(" does not support minting");
            r
        },
        MinterError::Unauthorized =>
            String::from_str("You aren't authorized as a custodian of that canister."),
        MinterError::FinalityTimeout =>
            String::from_str("timed out waiting for the mint to be finalized"),
    }
}

} // verus!
