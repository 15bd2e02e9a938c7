use rental::addr::Address;
use rental::collection::{
    create_collection, create_collection_app, remove_collection_app, update_collection,
    update_collection_app,
};
use rental::errors::ErrorCode;
use rental::nft::{create_nft, update_nft};

fn addr(b: u8) -> Address {
    Address::new(vec![b; 32])
}

#[test]
fn create_collection_keeps_fields() {
    let c = create_collection(
        b"PUNKS".to_vec(),
        b"Punk things".to_vec(),
        b"https://img.example/p.png".to_vec(),
        b"https://example.org".to_vec(),
        7,
    )
    .unwrap();
    assert_eq!(c.symbol, b"PUNKS".to_vec());
    assert_eq!(c.name, b"Punk things".to_vec());
    assert_eq!(c.image_url, b"https://img.example/p.png".to_vec());
    assert_eq!(c.website_url, b"https://example.org".to_vec());
    assert_eq!(c.royalties_percent, 7);
    assert_eq!(c.app_count, 0);
}

#[test]
fn create_collection_rejects_long_name() {
    let r = create_collection(
        b"PUNKS".to_vec(),
        vec![b'x'; 51],
        b"i".to_vec(),
        b"w".to_vec(),
        0,
    );
    assert_eq!(r.err(), Some(ErrorCode::StringTooLong));
    assert_eq!(ErrorCode::StringTooLong.message(), "String too long");
}

#[test]
fn create_collection_accepts_maximum_lengths() {
    let r = create_collection(
        b"S".to_vec(),
        vec![b'n'; 50],
        vec![b'i'; 100],
        vec![b'w'; 100],
        100,
    );
    assert!(r.is_ok());
}

#[test]
fn update_collection_overwrites_but_keeps_app_count() {
    let mut c = create_collection(b"A".to_vec(), b"a".to_vec(), b"b".to_vec(), b"c".to_vec(), 1)
        .unwrap();
    c.app_count = 3;
    let r = update_collection(
        &mut c,
        b"B".to_vec(),
        b"new name".to_vec(),
        b"new image".to_vec(),
        b"new site".to_vec(),
        9,
    );
    assert!(r.is_ok());
    assert_eq!(c.symbol, b"B".to_vec());
    assert_eq!(c.name, b"new name".to_vec());
    assert_eq!(c.image_url, b"new image".to_vec());
    assert_eq!(c.website_url, b"new site".to_vec());
    assert_eq!(c.royalties_percent, 9);
    assert_eq!(c.app_count, 3);
}

#[test]
fn update_collection_rejects_long_url_and_mutates_nothing() {
    let mut c = create_collection(b"A".to_vec(), b"a".to_vec(), b"b".to_vec(), b"c".to_vec(), 1)
        .unwrap();
    let r = update_collection(
        &mut c,
        b"B".to_vec(),
        b"n".to_vec(),
        vec![b'i'; 101],
        b"w".to_vec(),
        9,
    );
    assert_eq!(r.err(), Some(ErrorCode::StringTooLong));
    assert_eq!(c.symbol, b"A".to_vec());
    assert_eq!(c.name, b"a".to_vec());
    assert_eq!(c.royalties_percent, 1);
}

#[test]
fn app_round_trip_restores_count_and_keeps_fields() {
    let mut c = create_collection(b"A".to_vec(), b"a".to_vec(), b"b".to_vec(), b"c".to_vec(), 1)
        .unwrap();
    let key = addr(11);
    let app = create_collection_app(
        &mut c,
        &key,
        b"Store".to_vec(),
        b"https://img".to_vec(),
        b"https://app".to_vec(),
    )
    .unwrap();
    assert_eq!(c.app_count, 1);
    assert_eq!(app.collection.bytes, key.bytes);
    assert_eq!(app.name, b"Store".to_vec());
    assert_eq!(app.image_url, b"https://img".to_vec());
    assert_eq!(app.app_url, b"https://app".to_vec());
    remove_collection_app(&mut c);
    assert_eq!(c.app_count, 0);
}

#[test]
fn create_collection_app_rejects_long_app_url() {
    let mut c = create_collection(b"A".to_vec(), b"a".to_vec(), b"b".to_vec(), b"c".to_vec(), 1)
        .unwrap();
    let r = create_collection_app(
        &mut c,
        &addr(11),
        b"Store".to_vec(),
        b"i".to_vec(),
        vec![b'u'; 101],
    );
    assert_eq!(r.err(), Some(ErrorCode::StringTooLong));
    assert_eq!(c.app_count, 0);
}

#[test]
fn update_collection_app_keeps_collection_reference() {
    let mut c = create_collection(b"A".to_vec(), b"a".to_vec(), b"b".to_vec(), b"c".to_vec(), 1)
        .unwrap();
    let key = addr(11);
    let mut app = create_collection_app(
        &mut c,
        &key,
        b"Store".to_vec(),
        b"i".to_vec(),
        b"u".to_vec(),
    )
    .unwrap();
    let r = update_collection_app(&mut app, b"Shop".to_vec(), b"i2".to_vec(), b"u2".to_vec());
    assert!(r.is_ok());
    assert_eq!(app.collection.bytes, key.bytes);
    assert_eq!(app.name, b"Shop".to_vec());
    assert_eq!(app.image_url, b"i2".to_vec());
    assert_eq!(app.app_url, b"u2".to_vec());
}

#[test]
fn update_collection_app_rejects_long_name_and_mutates_nothing() {
    let mut c = create_collection(b"A".to_vec(), b"a".to_vec(), b"b".to_vec(), b"c".to_vec(), 1)
        .unwrap();
    let mut app = create_collection_app(
        &mut c,
        &addr(11),
        b"Store".to_vec(),
        b"i".to_vec(),
        b"u".to_vec(),
    )
    .unwrap();
    let r = update_collection_app(&mut app, vec![b'n'; 51], b"i2".to_vec(), b"u2".to_vec());
    assert_eq!(r.err(), Some(ErrorCode::StringTooLong));
    assert_eq!(app.name, b"Store".to_vec());
    assert_eq!(app.image_url, b"i".to_vec());
    assert_eq!(app.app_url, b"u".to_vec());
}

#[test]
fn create_nft_clears_rental_state() {
    let n = create_nft(addr(3), addr(2), addr(4), 5, 10, true);
    assert_eq!(n.mint.bytes, addr(3).bytes);
    assert_eq!(n.collection.bytes, addr(2).bytes);
    assert_eq!(n.owner.bytes, addr(4).bytes);
    assert_eq!(n.rental_max_days, 5);
    assert_eq!(n.rental_price, 10);
    assert!(n.rental_enabled);
    assert_eq!(n.rental_count, 0);
    assert_eq!(n.rented_until, 0);
    assert_eq!(n.renter.bytes, vec![0u8; 32]);
}

#[test]
fn update_nft_touches_only_policy_fields() {
    let mut n = create_nft(addr(3), addr(2), addr(4), 5, 10, true);
    n.rented_until = 77;
    n.rental_count = 2;
    update_nft(&mut n, 9, 25, false);
    assert_eq!(n.rental_max_days, 9);
    assert_eq!(n.rental_price, 25);
    assert!(!n.rental_enabled);
    assert_eq!(n.rented_until, 77);
    assert_eq!(n.rental_count, 2);
    assert_eq!(n.mint.bytes, addr(3).bytes);
    assert_eq!(n.owner.bytes, addr(4).bytes);
}

#[test]
fn update_nft_twice_equals_once() {
    let mut once = create_nft(addr(3), addr(2), addr(4), 5, 10, true);
    let mut twice = create_nft(addr(3), addr(2), addr(4), 5, 10, true);
    update_nft(&mut once, 9, 25, false);
    update_nft(&mut twice, 9, 25, false);
    update_nft(&mut twice, 9, 25, false);
    assert_eq!(once.rental_max_days, twice.rental_max_days);
    assert_eq!(once.rental_price, twice.rental_price);
    assert_eq!(once.rental_enabled, twice.rental_enabled);
    assert_eq!(once.rented_until, twice.rented_until);
    assert_eq!(once.rental_count, twice.rental_count);
    assert_eq!(once.mint.bytes, twice.mint.bytes);
    assert_eq!(once.owner.bytes, twice.owner.bytes);
    assert_eq!(once.collection.bytes, twice.collection.bytes);
    assert_eq!(once.renter.bytes, twice.renter.bytes);
}
