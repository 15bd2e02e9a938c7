use rental::addr::{collection_address, Address};
use rental::engine::{rent_nft, rental_state, NftState, DAY_SECONDS};
use rental::errors::ErrorCode;
use rental::nft::create_nft;

fn addr(b: u8) -> Address {
    Address::new(vec![b; 32])
}

struct Setup {
    program_id: Address,
    collection_key: Address,
    symbol: Vec<u8>,
    authority: Address,
    nft: rental::records::Nft,
}

fn setup(price: u64, max_days: u32, enabled: bool) -> Setup {
    let program_id = addr(1);
    let authority = addr(2);
    let symbol = b"PUNKS".to_vec();
    let collection_key = collection_address(&program_id, &symbol, &authority);
    let nft = create_nft(addr(3), collection_key.clone_addr(), addr(4), max_days, price, enabled);
    Setup { program_id, collection_key, symbol, authority, nft }
}

#[test]
fn rent_available_nft_succeeds() {
    let mut s = setup(10, 5, true);
    let mut owner_balance: u64 = 100;
    let mut renter_balance: u64 = 30;
    let now: i64 = 1_700_000_000;
    let r = rent_nft(
        &mut s.nft,
        &s.program_id,
        &s.collection_key,
        &s.symbol,
        &s.authority,
        &addr(4),
        &mut owner_balance,
        &addr(5),
        &mut renter_balance,
        3,
        now,
    );
    assert!(r.is_ok());
    assert_eq!(s.nft.rented_until, now + 3 * DAY_SECONDS);
    assert_eq!(s.nft.renter.bytes, addr(5).bytes);
    assert_eq!(owner_balance, 130);
    assert_eq!(renter_balance, 0);
    assert_eq!(s.nft.rental_count, 0);
}

#[test]
fn rent_while_rented_fails() {
    let mut s = setup(10, 5, true);
    let mut owner_balance: u64 = 100;
    let mut renter_balance: u64 = 50;
    let now: i64 = 1_700_000_000;
    let r = rent_nft(
        &mut s.nft,
        &s.program_id,
        &s.collection_key,
        &s.symbol,
        &s.authority,
        &addr(4),
        &mut owner_balance,
        &addr(5),
        &mut renter_balance,
        3,
        now,
    );
    assert!(r.is_ok());
    let rented_until = s.nft.rented_until;
    // A second request before expiry is rejected and nothing moves.
    let r2 = rent_nft(
        &mut s.nft,
        &s.program_id,
        &s.collection_key,
        &s.symbol,
        &s.authority,
        &addr(4),
        &mut owner_balance,
        &addr(6),
        &mut renter_balance,
        1,
        now + 10,
    );
    assert_eq!(r2, Err(ErrorCode::NftRented));
    assert_eq!(ErrorCode::NftRented.message(), "Nft already rented");
    assert_eq!(s.nft.rented_until, rented_until);
    assert_eq!(s.nft.renter.bytes, addr(5).bytes);
    assert_eq!(owner_balance, 130);
    assert_eq!(renter_balance, 20);
}

#[test]
fn rent_after_expiry_succeeds_again() {
    let mut s = setup(10, 5, true);
    let mut owner_balance: u64 = 0;
    let mut renter_balance: u64 = 100;
    let now: i64 = 1_700_000_000;
    let r = rent_nft(
        &mut s.nft,
        &s.program_id,
        &s.collection_key,
        &s.symbol,
        &s.authority,
        &addr(4),
        &mut owner_balance,
        &addr(5),
        &mut renter_balance,
        2,
        now,
    );
    assert!(r.is_ok());
    // At the very moment the window closes the record is Available again.
    let later = s.nft.rented_until;
    let r2 = rent_nft(
        &mut s.nft,
        &s.program_id,
        &s.collection_key,
        &s.symbol,
        &s.authority,
        &addr(4),
        &mut owner_balance,
        &addr(6),
        &mut renter_balance,
        1,
        later,
    );
    assert!(r2.is_ok());
    assert_eq!(s.nft.rented_until, later + DAY_SECONDS);
    assert_eq!(s.nft.renter.bytes, addr(6).bytes);
    assert_eq!(owner_balance, 30);
    assert_eq!(renter_balance, 70);
}

#[test]
fn rent_too_many_days_fails() {
    let mut s = setup(10, 5, true);
    let mut owner_balance: u64 = 100;
    let mut renter_balance: u64 = 1000;
    let now: i64 = 1_700_000_000;
    let r = rent_nft(
        &mut s.nft,
        &s.program_id,
        &s.collection_key,
        &s.symbol,
        &s.authority,
        &addr(4),
        &mut owner_balance,
        &addr(5),
        &mut renter_balance,
        6,
        now,
    );
    assert_eq!(r, Err(ErrorCode::InvalidRentalDuration));
    assert_eq!(ErrorCode::InvalidRentalDuration.message(), "Invalid rental duration");
    assert_eq!(s.nft.rented_until, 0);
    assert_eq!(owner_balance, 100);
    assert_eq!(renter_balance, 1000);
}

#[test]
fn rent_unlisted_nft_fails() {
    let mut s = setup(10, 5, false);
    let mut owner_balance: u64 = 100;
    let mut renter_balance: u64 = 1000;
    let r = rent_nft(
        &mut s.nft,
        &s.program_id,
        &s.collection_key,
        &s.symbol,
        &s.authority,
        &addr(4),
        &mut owner_balance,
        &addr(5),
        &mut renter_balance,
        1,
        1_700_000_000,
    );
    assert_eq!(r, Err(ErrorCode::NftNotListed));
    assert_eq!(ErrorCode::NftNotListed.message(), "Nft not listed");
    assert_eq!(s.nft.rented_until, 0);
    assert_eq!(owner_balance, 100);
    assert_eq!(renter_balance, 1000);
}

#[test]
fn rent_with_wrong_collection_key_fails() {
    let mut s = setup(10, 5, true);
    let mut owner_balance: u64 = 100;
    let mut renter_balance: u64 = 1000;
    let wrong = addr(9);
    let r = rent_nft(
        &mut s.nft,
        &s.program_id,
        &wrong,
        &s.symbol,
        &s.authority,
        &addr(4),
        &mut owner_balance,
        &addr(5),
        &mut renter_balance,
        1,
        1_700_000_000,
    );
    assert_eq!(r, Err(ErrorCode::InvalidCollection));
    assert_eq!(ErrorCode::InvalidCollection.message(), "Invalid collection");
    assert_eq!(s.nft.rented_until, 0);
    assert_eq!(owner_balance, 100);
    assert_eq!(renter_balance, 1000);
}

#[test]
fn rent_with_wrong_owner_fails() {
    let mut s = setup(10, 5, true);
    let mut owner_balance: u64 = 100;
    let mut renter_balance: u64 = 1000;
    let r = rent_nft(
        &mut s.nft,
        &s.program_id,
        &s.collection_key,
        &s.symbol,
        &s.authority,
        &addr(8),
        &mut owner_balance,
        &addr(5),
        &mut renter_balance,
        1,
        1_700_000_000,
    );
    assert_eq!(r, Err(ErrorCode::InvalidOwner));
    assert_eq!(ErrorCode::InvalidOwner.message(), "Invalid owner");
    assert_eq!(s.nft.rented_until, 0);
    assert_eq!(owner_balance, 100);
    assert_eq!(renter_balance, 1000);
}

#[test]
fn rent_with_insufficient_balance_fails() {
    let mut s = setup(10, 5, true);
    let mut owner_balance: u64 = 100;
    let mut renter_balance: u64 = 29;
    let r = rent_nft(
        &mut s.nft,
        &s.program_id,
        &s.collection_key,
        &s.symbol,
        &s.authority,
        &addr(4),
        &mut owner_balance,
        &addr(5),
        &mut renter_balance,
        3,
        1_700_000_000,
    );
    assert_eq!(r, Err(ErrorCode::InsuffisantFunds));
    assert_eq!(ErrorCode::InsuffisantFunds.message(), "Insuffisant funds");
    assert_eq!(s.nft.rented_until, 0);
    assert_eq!(owner_balance, 100);
    assert_eq!(renter_balance, 29);
}

#[test]
fn rent_price_overflow_fails() {
    let mut s = setup(u64::MAX, 5, true);
    let mut owner_balance: u64 = 100;
    let mut renter_balance: u64 = 1000;
    let r = rent_nft(
        &mut s.nft,
        &s.program_id,
        &s.collection_key,
        &s.symbol,
        &s.authority,
        &addr(4),
        &mut owner_balance,
        &addr(5),
        &mut renter_balance,
        2,
        1_700_000_000,
    );
    assert_eq!(r, Err(ErrorCode::ArithmeticOverflow));
    assert_eq!(ErrorCode::ArithmeticOverflow.message(), "Arithmetic overflow");
    assert_eq!(s.nft.rented_until, 0);
    assert_eq!(owner_balance, 100);
    assert_eq!(renter_balance, 1000);
}

#[test]
fn rent_zero_days_succeeds_and_leaves_record_expired() {
    let mut s = setup(10, 5, true);
    let mut owner_balance: u64 = 0;
    let mut renter_balance: u64 = 0;
    let now: i64 = 1_700_000_000;
    let r = rent_nft(
        &mut s.nft,
        &s.program_id,
        &s.collection_key,
        &s.symbol,
        &s.authority,
        &addr(4),
        &mut owner_balance,
        &addr(5),
        &mut renter_balance,
        0,
        now,
    );
    assert!(r.is_ok());
    assert_eq!(s.nft.rented_until, now);
    assert_eq!(rental_state(&s.nft, now), NftState::Available);
}

#[test]
fn state_classification() {
    let mut s = setup(10, 5, true);
    let t: i64 = 1_000;
    s.nft.rented_until = 1_001;
    assert_eq!(rental_state(&s.nft, t), NftState::Rented);
    s.nft.rented_until = 1_000;
    assert_eq!(rental_state(&s.nft, t), NftState::Available);
    s.nft.rented_until = 0;
    assert_eq!(rental_state(&s.nft, t), NftState::Available);
    s.nft.rental_enabled = false;
    assert_eq!(rental_state(&s.nft, t), NftState::Unlisted);
    s.nft.rented_until = 2_000;
    assert_eq!(rental_state(&s.nft, t), NftState::Unlisted);
}
