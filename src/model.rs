use vstd::prelude::*;

verus! {

/// The network a canister runs on.
#[derive(Clone, Copy, PartialEq, Eq, Structural)]
pub enum Network {
    /// The mainnet at <https://ic0.app/>.
    Ic,
    /// The local replica at <http://localhost:8000/>.
    Local,
}

/// One interface that a DIP-721 canister may report as supported.
#[derive(Clone, Copy, Debug, PartialEq, Eq, Structural)]
pub enum InterfaceId {
    Approval,
    TransactionHistory,
    Mint,
    Burn,
    TransferNotification,
}

/// A value in the key/value part of a token's metadata.
#[derive(Debug)]
pub enum MetadataVal {
    TextContent(String),
    BlobContent(Vec<u8>),
    NatContent(u128),
    Nat8Content(u8),
    Nat16Content(u16),
    Nat32Content(u32),
    Nat64Content(u64),
}

/// What a metadata part is for.
#[derive(Clone, Copy, Debug, PartialEq, Eq, Structural)]
pub enum MetadataPurpose {
    Preview,
    Rendered,
}

/// One part of a token's metadata: a purpose, keyed values (each key at most
/// once, in the order they were added) and the raw asset bytes.
pub struct MetadataPart<'a> {
    pub purpose: MetadataPurpose,
    pub key_val_data: Vec<(&'static str, MetadataVal)>,
    pub data: &'a [u8],
}

impl<'a> MetadataPart<'a> {
    /// No key stands twice among the keyed values.
    pub open spec fn keys_distinct(&self) -> bool {
        forall|i: int, j: int|
            0 <= i < j < self.key_val_data@.len() ==> #[trigger] self.key_val_data@[i].0@
                != #[trigger] self.key_val_data@[j].0@
    }
}

/// The identity file's content: the name of the default signing identity.
pub struct DefaultIdentity {
    default: String,
}

impl DefaultIdentity {
    pub closed spec fn name(&self) -> Seq<char> {
        self.default@
    }

    pub fn new(default: String) -> (r: DefaultIdentity)
        ensures
            r.name() == default@,
    {
        DefaultIdentity { default }
    }

    pub fn default_name(&self) -> (r: &str)
        ensures
            r@ == self.name(),
    {
        self.default.as_str()
    }
}

/// What the canister returns for a successful mint.
#[derive(Clone, Copy, Debug, PartialEq, Eq, Structural)]
pub struct MintReceipt {
    pub id: u128,
    pub token_id: u64,
}

/// The typed failure that the canister returns in place of a receipt.
#[derive(Clone, Copy, Debug, PartialEq, Eq, Structural)]
pub enum MintError {
    Unauthorized,
}

/// The remote call that a failure came from.
#[derive(Clone, Copy, Debug, PartialEq, Eq, Structural)]
pub enum CallStep {
    /// The read-only `supportedInterfaces` query.
    Capabilities,
    /// The `mint` update call.
    Mint,
}

/// How a failed remote call failed, as far as the minter's decisions go.
#[derive(Clone, Copy, Debug, PartialEq, Eq, Structural)]
pub enum CallFailure {
    /// The replica rejected the call with this reject code.
    Rejected(u64),
    /// The wait for the call's finality ran out of time.
    TimedOut,
    /// Any other transport or protocol failure.
    Other,
}

/// Every way a mint run can fail.
#[derive(Clone, Copy, Debug, PartialEq, Eq, Structural)]
pub enum MinterError {
    /// The signing identity could not be set up.
    Configuration,
    /// The asset file could not be read.
    Io,
    /// A network or protocol failure not otherwise classified.
    Transport,
    /// The target has no such entry point: it is not a DIP-721 canister.
    NotATargetContract(CallStep),
    /// The canister does not report the `Mint` interface.
    UnsupportedOperation,
    /// The caller is not a custodian of the canister.
    Unauthorized,
    /// No definitive reply came before the wait's deadline.
    FinalityTimeout,
}

} // verus!
