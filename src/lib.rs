//! Verified core of a command-line minter for DIP-721 NFT canisters: the
//! data that travels to and from the canister, the decisions taken on each
//! reply, and the policy that paces the wait for finality.

pub mod model;
pub mod external;
pub mod decimal;
pub mod finality;
pub mod minter;
pub mod run;
pub mod laws;
