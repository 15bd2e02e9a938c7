//! The marketplace's persisted records and their mathematical views.
//!
//! Text fields hold UTF-8 bytes and are length-capped, because each record
//! reserves its worst-case storage up front and is never resized. Addresses
//! are the 32-byte account keys of the hosting chain.

use crate::addr::Address;
use vstd::prelude::*;

verus! {

/// Maximum byte length of a collection's or app's display name.
pub const NAME_MAX_LEN: usize = 50;

/// Maximum byte length of a collection's symbol.
pub const SYMBOL_MAX_LEN: usize = 10;

/// Maximum byte length of any URL field.
pub const URL_MAX_LEN: usize = 100;

/// A named collection of NFTs, owned by the authority whose address was
/// mixed into the record's derived storage address.
pub struct Collection {
    pub name: Vec<u8>,
    pub symbol: Vec<u8>,
    pub image_url: Vec<u8>,
    pub royalties_percent: u8,
    pub website_url: Vec<u8>,
    pub app_count: u16,
}

/// The mathematical value of a [`Collection`] record.
pub struct CollectionView {
    pub name: Seq<u8>,
    pub symbol: Seq<u8>,
    pub image_url: Seq<u8>,
    pub royalties_percent: u8,
    pub website_url: Seq<u8>,
    pub app_count: u16,
}

impl View for Collection {
    type V = CollectionView;

    open spec fn view(&self) -> CollectionView {
        CollectionView {
            name: self.name@,
            symbol: self.symbol@,
            image_url: self.image_url@,
            royalties_percent: self.royalties_percent,
            website_url: self.website_url@,
            app_count: self.app_count,
        }
    }
}

impl CollectionView {
    /// String fields never exceed their declared maximum length.
    pub open spec fn wf(self) -> bool {
        self.name.len() <= NAME_MAX_LEN && self.image_url.len() <= URL_MAX_LEN
            && self.website_url.len() <= URL_MAX_LEN
    }
}

/// An "app" (storefront) entry linked to a collection. The back-reference
/// to the owning collection is immutable after creation.
pub struct CollectionApp {
    pub collection: Address,
    pub name: Vec<u8>,
    pub image_url: Vec<u8>,
    pub app_url: Vec<u8>,
}

/// The mathematical value of a [`CollectionApp`] record.
pub struct CollectionAppView {
    pub collection: Seq<u8>,
    pub name: Seq<u8>,
    pub image_url: Seq<u8>,
    pub app_url: Seq<u8>,
}

impl View for CollectionApp {
    type V = CollectionAppView;

    open spec fn view(&self) -> CollectionAppView {
        CollectionAppView {
            collection: self.collection@,
            name: self.name@,
            image_url: self.image_url@,
            app_url: self.app_url@,
        }
    }
}

impl CollectionAppView {
    /// String fields never exceed their declared maximum length.
    pub open spec fn wf(self) -> bool {
        self.name.len() <= NAME_MAX_LEN && self.image_url.len() <= URL_MAX_LEN
            && self.app_url.len() <= URL_MAX_LEN
    }
}

/// An NFT's rental configuration and rental state, tied to one mint.
///
/// The mint uniquely determines the record's derived storage address and is
/// immutable after creation. The policy fields (`rental_enabled`,
/// `rental_price`, `rental_max_days`) are owner-set; the rental-state
/// fields (`renter`, `rented_until`, `rental_count`) are written only by
/// the rental engine.
pub struct Nft {
    pub mint: Address,
    pub owner: Address,
    pub collection: Address,
    pub rental_enabled: bool,
    pub rental_price: u64,
    pub rental_max_days: u32,
    pub rental_count: u64,
    pub renter: Address,
    pub rented_until: i64,
}

/// The mathematical value of an [`Nft`] record.
pub struct NftView {
    pub mint: Seq<u8>,
    pub owner: Seq<u8>,
    pub collection: Seq<u8>,
    pub rental_enabled: bool,
    pub rental_price: u64,
    pub rental_max_days: u32,
    pub rental_count: u64,
    pub renter: Seq<u8>,
    pub rented_until: i64,
}

impl View for Nft {
    type V = NftView;

    open spec fn view(&self) -> NftView {
        NftView {
            mint: self.mint@,
            owner: self.owner@,
            collection: self.collection@,
            rental_enabled: self.rental_enabled,
            rental_price: self.rental_price,
            rental_max_days: self.rental_max_days,
            rental_count: self.rental_count,
            renter: self.renter@,
            rented_until: self.rented_until,
        }
    }
}

} // verus!
