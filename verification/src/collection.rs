//! The collection registry: creating and updating collection records and
//! the "app" (storefront) entries that reference them.
//!
//! A record's storage address is derived from its identifying fields by the
//! addressing scheme in [`crate::addr`]; the host resolves a request's
//! symbol and authority to the record it hands these operations.

use crate::addr::Address;
use crate::errors::ErrorCode;
use crate::records::{
    Collection, CollectionApp, CollectionAppView, CollectionView, NAME_MAX_LEN, URL_MAX_LEN,
};
use vstd::prelude::*;

verus! {

/// Whether the string arguments of a collection create or update pass the
/// length validation.
pub open spec fn collection_args_ok(name: Seq<u8>, image_url: Seq<u8>, website_url: Seq<u8>) -> bool {
    name.len() <= NAME_MAX_LEN && image_url.len() <= URL_MAX_LEN && website_url.len()
        <= URL_MAX_LEN
}

/// The collection record as `create_collection` initializes it.
pub open spec fn spec_collection_created(
    symbol: Seq<u8>,
    name: Seq<u8>,
    image_url: Seq<u8>,
    website_url: Seq<u8>,
    royalties_percent: u8,
) -> CollectionView {
    CollectionView {
        name: name,
        symbol: symbol,
        image_url: image_url,
        royalties_percent: royalties_percent,
        website_url: website_url,
        app_count: 0,
    }
}

/// Creates a collection record from the supplied fields, rejecting any
/// over-long string before anything is built. The caller (the collection's
/// authority) stores the record at the address derived from the symbol and
/// the authority's key.
pub fn create_collection(
    symbol: Vec<u8>,
    name: Vec<u8>,
    image_url: Vec<u8>,
    website_url: Vec<u8>,
    royalties_percent: u8,
) -> (r: Result<Collection, ErrorCode>)
    ensures
        r is Ok <==> collection_args_ok(name@, image_url@, website_url@),
        r matches Ok(c) ==> c@ == spec_collection_created(
            symbol@,
            name@,
            image_url@,
            website_url@,
            royalties_percent,
        ) && c@.wf(),
        r is Err ==> r == Err::<Collection, ErrorCode>(ErrorCode::StringTooLong),
{
    if !(name.len() <= NAME_MAX_LEN && image_url.len() <= URL_MAX_LEN && website_url.len()
        <= URL_MAX_LEN) {
        return Err(ErrorCode::StringTooLong);
    }
    Ok(
        Collection {
            name,
            symbol,
            image_url,
            royalties_percent,
            website_url,
            app_count: 0,
        },
    )
}

/// Overwrites every mutable field of an existing collection record,
/// rejecting any over-long string before any mutation. Only the original
/// authority reaches the record, since its address derivation requires
/// their key. The app count is not touched.
pub fn update_collection(
    collection: &mut Collection,
    symbol: Vec<u8>,
    name: Vec<u8>,
    image_url: Vec<u8>,
    website_url: Vec<u8>,
    royalties_percent: u8,
) -> (r: Result<(), ErrorCode>)
    ensures
        r is Ok <==> collection_args_ok(name@, image_url@, website_url@),
        r is Ok ==> final(collection)@ == (CollectionView {
            name: name@,
            symbol: symbol@,
            image_url: image_url@,
            royalties_percent: royalties_percent,
            website_url: website_url@,
            app_count: old(collection)@.app_count,
        }),
        r is Err ==> r == Err::<(), ErrorCode>(ErrorCode::StringTooLong) && final(collection)@
            == old(collection)@,
{
    if !(name.len() <= NAME_MAX_LEN && image_url.len() <= URL_MAX_LEN && website_url.len()
        <= URL_MAX_LEN) {
        return Err(ErrorCode::StringTooLong);
    }
    collection.symbol = symbol;
    collection.name = name;
    collection.image_url = image_url;
    collection.website_url = website_url;
    collection.royalties_percent = royalties_percent;
    Ok(())
}

/// Whether the string arguments of an app create or update pass the length
/// validation.
pub open spec fn app_args_ok(name: Seq<u8>, image_url: Seq<u8>, app_url: Seq<u8>) -> bool {
    name.len() <= NAME_MAX_LEN && image_url.len() <= URL_MAX_LEN && app_url.len() <= URL_MAX_LEN
}

/// The owning collection's record after an app entry is added to it.
pub open spec fn spec_app_added(c: CollectionView) -> CollectionView {
    CollectionView { app_count: (c.app_count + 1) as u16, ..c }
}

/// The owning collection's record after an app entry is removed from it.
pub open spec fn spec_app_removed(c: CollectionView) -> CollectionView {
    CollectionView { app_count: (c.app_count - 1) as u16, ..c }
}

/// Creates an app entry under `collection`, whose record lives at
/// `collection_key`, and counts it on the collection. Rejects any
/// over-long string before any mutation.
pub fn create_collection_app(
    collection: &mut Collection,
    collection_key: &Address,
    name: Vec<u8>,
    image_url: Vec<u8>,
    app_url: Vec<u8>,
) -> (r: Result<CollectionApp, ErrorCode>)
    requires
        app_args_ok(name@, image_url@, app_url@) ==> old(collection)@.app_count < u16::MAX,
    ensures
        r is Ok <==> app_args_ok(name@, image_url@, app_url@),
        r matches Ok(a) ==> a@ == (CollectionAppView {
            collection: collection_key@,
            name: name@,
            image_url: image_url@,
            app_url: app_url@,
        }) && a@.wf() && final(collection)@ == spec_app_added(old(collection)@),
        r is Err ==> r == Err::<CollectionApp, ErrorCode>(ErrorCode::StringTooLong)
            && final(collection)@ == old(collection)@,
{
    if !(name.len() <= NAME_MAX_LEN && image_url.len() <= URL_MAX_LEN && app_url.len()
        <= URL_MAX_LEN) {
        return Err(ErrorCode::StringTooLong);
    }
    let app = CollectionApp {
        collection: collection_key.clone_addr(),
        name,
        image_url,
        app_url,
    };
    collection.app_count = collection.app_count + 1;
    Ok(app)
}

/// Overwrites an app entry's mutable fields, rejecting any over-long
/// string before any mutation. The back-reference to the owning collection
/// is kept unchanged.
pub fn update_collection_app(
    app: &mut CollectionApp,
    name: Vec<u8>,
    image_url: Vec<u8>,
    app_url: Vec<u8>,
) -> (r: Result<(), ErrorCode>)
    ensures
        r is Ok <==> app_args_ok(name@, image_url@, app_url@),
        r is Ok ==> final(app)@ == (CollectionAppView {
            collection: old(app)@.collection,
            name: name@,
            image_url: image_url@,
            app_url: app_url@,
        }),
        r is Err ==> r == Err::<(), ErrorCode>(ErrorCode::StringTooLong)
            && final(app)@ == old(app)@,
{
    if !(name.len() <= NAME_MAX_LEN && image_url.len() <= URL_MAX_LEN && app_url.len()
        <= URL_MAX_LEN) {
        return Err(ErrorCode::StringTooLong);
    }
    app.name = name;
    app.image_url = image_url;
    app.app_url = app_url;
    Ok(())
}

/// Removes an app entry from its collection's count. The entry's record
/// itself is destroyed by the host's store, which also returns the
/// record's reserved storage funds to the authority.
pub fn remove_collection_app(collection: &mut Collection)
    requires
        old(collection)@.app_count >= 1,
    ensures
        final(collection)@ == spec_app_removed(old(collection)@),
{
    collection.app_count = collection.app_count - 1;
}

/// Law: adding an app entry to a collection and then removing one leaves
/// the collection record exactly as it was; in particular the app count
/// first rises by exactly one and then falls by exactly one.
pub proof fn lemma_app_round_trip(c: CollectionView)
    requires
        c.app_count < u16::MAX,
    ensures
        spec_app_added(c).app_count == c.app_count + 1,
        spec_app_removed(spec_app_added(c)) == c,
{
}

} // verus!
