//! Verified core of an on-chain NFT rental marketplace.
//!
//! Owners register NFTs with a rental price and a maximum duration; renters
//! pay to receive time-boxed usage rights enforced by expiry timestamps.
//! Records live at deterministically derived addresses, so every lookup can
//! be re-checked by re-deriving the address from the identifying fields.

pub mod addr;
pub mod collection;
pub mod engine;
pub mod errors;
pub mod ledger;
pub mod nft;
pub mod records;
pub mod store;
pub mod verify;
