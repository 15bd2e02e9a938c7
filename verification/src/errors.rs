//! Error conditions that the marketplace's operations report.

use vstd::prelude::*;

verus! {

/// Every fault an operation can reject a request with. Each is reported
/// synchronously and terminally: no operation retries, and no operation
/// leaves a partial mutation behind when it returns an error.
#[derive(Clone, Copy, Debug, PartialEq, Eq, Structural)]
pub enum ErrorCode {
    /// A supplied string field exceeds its declared maximum length.
    StringTooLong,
    /// The owner account supplied with a rental request does not match the
    /// owner recorded on the NFT record.
    InvalidOwner,
    /// The NFT's current rental window has not yet expired.
    NftRented,
    /// The NFT record has rentals disabled.
    NftNotListed,
    /// The requested duration exceeds the owner's maximum.
    InvalidRentalDuration,
    /// The payer's balance does not cover the amount to transfer.
    InsuffisantFunds,
    /// The supplied collection address does not match the address derived
    /// from the collection's symbol and authority.
    InvalidCollection,
    /// A monetary computation would exceed the value type's range.
    ArithmeticOverflow,
}

impl ErrorCode {
    /// The human-readable message attached to each fault.
    pub fn message(&self) -> (r: &'static str)
        ensures
            *self == ErrorCode::StringTooLong ==> r@ == "String too long"@,
            *self == ErrorCode::InvalidOwner ==> r@ == "Invalid owner"@,
            *self == ErrorCode::NftRented ==> r@ == "Nft already rented"@,
            *self == ErrorCode::NftNotListed ==> r@ == "Nft not listed"@,
            *self == ErrorCode::InvalidRentalDuration ==> r@ == "Invalid rental duration"@,
            *self == ErrorCode::InsuffisantFunds ==> r@ == "Insuffisant funds"@,
            *self == ErrorCode::InvalidCollection ==> r@ == "Invalid collection"@,
            *self == ErrorCode::ArithmeticOverflow ==> r@ == "Arithmetic overflow"@,
    {
        match self {
            ErrorCode::StringTooLong => "String too long",
            ErrorCode::InvalidOwner => "Invalid owner",
            ErrorCode::NftRented => "Nft already rented",
            ErrorCode::NftNotListed => "Nft not listed",
            ErrorCode::InvalidRentalDuration => "Invalid rental duration",
            ErrorCode::InsuffisantFunds => "Insuffisant funds",
            ErrorCode::InvalidCollection => "Invalid collection",
            ErrorCode::ArithmeticOverflow => "Arithmetic overflow",
        }
    }
}

} // verus!
