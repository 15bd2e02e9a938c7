//! The rental engine: the state machine that validates a rental request,
//! computes the rental window, and exchanges payment for it.
//!
//! A request names an NFT, a collection (by symbol and authority), and a
//! duration. The engine re-derives the collection's address and compares
//! it against the supplied one, checks eligibility against the NFT record,
//! moves the payment, and only then opens the rental window. The whole
//! transition is one indivisible unit: on any fault nothing is mutated.

use crate::addr::{addr_eq, collection_address, collection_seeds, derived_address_of, Address};
use crate::errors::ErrorCode;
use crate::ledger::transfer_funds;
use crate::records::{Nft, NftView};
use vstd::prelude::*;

verus! {

/// Seconds in one day: the unit in which rental durations are priced.
pub const DAY_SECONDS: i64 = 86400;

/// The rental availability of an NFT record at some query time.
#[derive(Clone, Copy, Debug, PartialEq, Eq, Structural)]
pub enum NftState {
    /// Rentals are disabled; no rental request is accepted.
    Unlisted,
    /// Rentals are enabled and no rental window is open; rental requests
    /// are accepted.
    Available,
    /// Rentals are enabled and a rental window is still open; rental
    /// requests are rejected until the window expires by itself.
    Rented,
}

/// Classifies an NFT record at query time `now`, from its enabled flag and
/// its rental window alone.
pub open spec fn state_of(n: NftView, now: i64) -> NftState {
    if !n.rental_enabled {
        NftState::Unlisted
    } else if n.rented_until > now {
        NftState::Rented
    } else {
        NftState::Available
    }
}

/// Reads off an NFT record's rental state at query time `now`.
pub fn rental_state(nft: &Nft, now: i64) -> (s: NftState)
    ensures
        s == state_of(nft@, now),
{
    if !nft.rental_enabled {
        NftState::Unlisted
    } else if nft.rented_until > now {
        NftState::Rented
    } else {
        NftState::Available
    }
}

/// Law: a listed NFT record is in the `Rented` state at query time `t`
/// exactly when its rental window extends past `t`. (An unlisted record is
/// classified `Unlisted` even while a previously opened window is still
/// running, so the equivalence is stated for listed records.)
pub proof fn lemma_rented_iff_window_open(n: NftView, t: i64)
    requires
        n.rental_enabled,
    ensures
        state_of(n, t) == NftState::Rented <==> n.rented_until > t,
{
}

/// The fault with which the engine rejects a rental request, or `None`
/// when the request goes through. The checks run in this order: collection
/// address, owner, open rental window, listing, duration, price
/// computation, payment.
pub open spec fn spec_rent_error(
    n: NftView,
    derived: Seq<u8>,
    collection_key: Seq<u8>,
    owner_key: Seq<u8>,
    days: u32,
    now: i64,
    renter_balance: u64,
    owner_balance: u64,
) -> Option<ErrorCode> {
    let price = n.rental_price as int * days as int;
    if derived != collection_key {
        Some(ErrorCode::InvalidCollection)
    } else if owner_key != n.owner {
        Some(ErrorCode::InvalidOwner)
    } else if n.rented_until > now {
        Some(ErrorCode::NftRented)
    } else if !n.rental_enabled {
        Some(ErrorCode::NftNotListed)
    } else if days > n.rental_max_days {
        Some(ErrorCode::InvalidRentalDuration)
    } else if price > u64::MAX {
        Some(ErrorCode::ArithmeticOverflow)
    } else if (renter_balance as int) < price {
        Some(ErrorCode::InsuffisantFunds)
    } else if owner_balance as int + price > u64::MAX {
        Some(ErrorCode::ArithmeticOverflow)
    } else {
        None
    }
}

/// The NFT record after a successful rental: the renter is recorded and
/// the rental window runs `days` days from `now`. Nothing else moves; in
/// particular the cumulative rental count keeps its prior value.
pub open spec fn spec_nft_rented(n: NftView, renter: Seq<u8>, days: u32, now: i64) -> NftView {
    NftView {
        renter: renter,
        rented_until: (now + days as int * DAY_SECONDS) as i64,
        ..n
    }
}

/// Rents the NFT held by `nft` for `days` days at query time `now`.
///
/// The engine re-derives the collection address from `symbol` and
/// `authority` under `program_id` and requires it to equal
/// `collection_key`, the address the caller supplied; then it checks the
/// request against the record: the supplied `owner_key` must match the
/// stored owner, no rental window may be open, the record must be listed,
/// and the duration must be within the owner's maximum. The total price,
/// price per day times `days`, moves from the renter's balance to the
/// owner's, and only after that transfer succeeds is the rental window
/// opened for `renter_key`. On any fault the record and both balances are
/// left exactly as they were.
pub fn rent_nft(
    nft: &mut Nft,
    program_id: &Address,
    collection_key: &Address,
    symbol: &Vec<u8>,
    authority: &Address,
    owner_key: &Address,
    owner_balance: &mut u64,
    renter_key: &Address,
    renter_balance: &mut u64,
    days: u32,
    now: i64,
) -> (r: Result<(), ErrorCode>)
    requires
        program_id.wf(),
        now + days as int * DAY_SECONDS <= i64::MAX,
    ensures
        ({
            let derived = derived_address_of(collection_seeds(symbol@, authority@), program_id@);
            let err = spec_rent_error(
                old(nft)@,
                derived,
                collection_key@,
                owner_key@,
                days,
                now,
                *old(renter_balance),
                *old(owner_balance),
            );
            let price = old(nft)@.rental_price as int * days as int;
            &&& (r is Ok <==> err is None)
            &&& (err matches Some(e) ==> r == Err::<(), ErrorCode>(e) && final(nft)@ == old(nft)@
                && *final(renter_balance) == *old(renter_balance) && *final(owner_balance) == *old(
                owner_balance,
            ))
            &&& (err is None ==> final(nft)@ == spec_nft_rented(old(nft)@, renter_key@, days, now)
                && *final(renter_balance) == *old(renter_balance) - price && *final(owner_balance)
                == *old(owner_balance) + price)
            &&& *final(renter_balance) + *final(owner_balance) == *old(renter_balance) + *old(
                owner_balance,
            )
        }),
{
    let derived = collection_address(program_id, symbol, authority);
    if !addr_eq(&derived, collection_key) {
        return Err(ErrorCode::InvalidCollection);
    }
    if !addr_eq(owner_key, &nft.owner) {
        return Err(ErrorCode::InvalidOwner);
    }
    if nft.rented_until > now {
        return Err(ErrorCode::NftRented);
    }
    if !nft.rental_enabled {
        return Err(ErrorCode::NftNotListed);
    }
    if days > nft.rental_max_days {
        return Err(ErrorCode::InvalidRentalDuration);
    }
    let price = match nft.rental_price.checked_mul(days as u64) {
        Some(p) => p,
        None => {
            return Err(ErrorCode::ArithmeticOverflow);
        },
    };
    match transfer_funds(renter_balance, owner_balance, price) {
        Ok(_) => {},
        Err(e) => {
            return Err(e);
        },
    }
    nft.renter = renter_key.clone_addr();
    nft.rented_until = now + DAY_SECONDS * (days as i64);
    Ok(())
}

/// Law: when the supplied collection address matches the derived one, the
/// supplied owner matches the stored one, the price computation cannot
/// overflow and the payment cannot fail, a rental request succeeds exactly
/// when the NFT is in the `Available` state and the requested duration is
/// within the owner's maximum.
pub proof fn lemma_rent_success_iff_available(
    n: NftView,
    derived: Seq<u8>,
    collection_key: Seq<u8>,
    owner_key: Seq<u8>,
    days: u32,
    now: i64,
    renter_balance: u64,
    owner_balance: u64,
)
    requires
        derived == collection_key,
        owner_key == n.owner,
        n.rental_price as int * days as int <= u64::MAX,
        renter_balance as int >= n.rental_price as int * days as int,
        owner_balance as int + n.rental_price as int * days as int <= u64::MAX,
    ensures
        spec_rent_error(n, derived, collection_key, owner_key, days, now, renter_balance,
        owner_balance) is None <==> state_of(n, now) == NftState::Available && days
            <= n.rental_max_days,
{
}

} // verus!
