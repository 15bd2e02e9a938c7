//! The NFT registry: creating an NFT's rental configuration record and
//! updating its owner-set policy fields.

use crate::addr::Address;
use crate::records::{Nft, NftView};
use vstd::prelude::*;

verus! {

/// The all-zero address, the value of an unset address field.
pub open spec fn zero_address() -> Seq<u8> {
    Seq::new(32, |i: int| 0u8)
}

/// Builds the all-zero address.
pub fn zero_addr() -> (r: Address)
    ensures
        r@ == zero_address(),
        r@.len() == 32,
{
    let mut bytes: Vec<u8> = Vec::new();
    let mut i: usize = 0;
    while i < 32
        invariant
            0 <= i <= 32,
            bytes@.len() == i,
            forall|j: int| 0 <= j < i ==> bytes@[j] == 0u8,
        decreases 32 - i,
    {
        bytes.push(0u8);
        i += 1;
    }
    proof {
        assert(bytes@ =~= zero_address());
    }
    Address { bytes }
}

/// The NFT record as `create_nft` initializes it: the caller-asserted
/// owner, the supplied policy fields, and a cleared rental state.
pub open spec fn spec_nft_created(
    mint: Seq<u8>,
    collection: Seq<u8>,
    owner: Seq<u8>,
    rental_max_days: u32,
    rental_price: u64,
    rental_enabled: bool,
) -> NftView {
    NftView {
        mint: mint,
        owner: owner,
        collection: collection,
        rental_enabled: rental_enabled,
        rental_price: rental_price,
        rental_max_days: rental_max_days,
        rental_count: 0,
        renter: zero_address(),
        rented_until: 0,
    }
}

/// The NFT record after `update_nft` overwrites its policy fields.
pub open spec fn spec_nft_updated(
    n: NftView,
    rental_max_days: u32,
    rental_price: u64,
    rental_enabled: bool,
) -> NftView {
    NftView {
        rental_max_days: rental_max_days,
        rental_price: rental_price,
        rental_enabled: rental_enabled,
        ..n
    }
}

/// Creates an NFT's rental record, to be stored at the address derived
/// from the mint. The rental state starts cleared: no renter, no open
/// rental window, zero completed rentals.
///
/// The `owner` argument is caller-asserted: nothing here verifies that the
/// caller actually holds the underlying token. A host that wants that
/// guarantee runs an ownership check, such as the delegated verification
/// flow in [`crate::verify`], before storing the record.
pub fn create_nft(
    mint: Address,
    collection: Address,
    owner: Address,
    rental_max_days: u32,
    rental_price: u64,
    rental_enabled: bool,
) -> (r: Nft)
    ensures
        r@ == spec_nft_created(
            mint@,
            collection@,
            owner@,
            rental_max_days,
            rental_price,
            rental_enabled,
        ),
{
    Nft {
        mint,
        owner,
        collection,
        rental_enabled,
        rental_price,
        rental_max_days,
        rental_count: 0,
        renter: zero_addr(),
        rented_until: 0,
    }
}

/// Overwrites the owner-set policy fields of an NFT record and nothing
/// else; the rental-state fields are never touched. Only the record's
/// stored owner reaches it, since the host requires the owner's signature
/// and the record's address derivation requires the mint.
pub fn update_nft(nft: &mut Nft, rental_max_days: u32, rental_price: u64, rental_enabled: bool)
    ensures
        final(nft)@ == spec_nft_updated(old(nft)@, rental_max_days, rental_price, rental_enabled),
{
    nft.rental_max_days = rental_max_days;
    nft.rental_price = rental_price;
    nft.rental_enabled = rental_enabled;
}

/// Law: updating an NFT's policy twice with the same arguments yields the
/// same record state as updating it once.
pub proof fn lemma_update_nft_idempotent(
    n: NftView,
    rental_max_days: u32,
    rental_price: u64,
    rental_enabled: bool,
)
    ensures
        spec_nft_updated(
            spec_nft_updated(n, rental_max_days, rental_price, rental_enabled),
            rental_max_days,
            rental_price,
            rental_enabled,
        ) == spec_nft_updated(n, rental_max_days, rental_price, rental_enabled),
{
}

} // verus!
