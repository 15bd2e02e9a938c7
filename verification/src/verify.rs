//! The decision logic of the delegated NFT verification flow.
//!
//! The metadata program that establishes an NFT's provenance is an
//! external collaborator: the host reads the token account, the metadata
//! account and the master edition account and parses them. What is decided
//! from those plain facts stands here: every check re-derives or compares
//! addresses and amounts, and the outcome of each check is reported. A
//! failed check is a finding for the host to log or act on, not an abort.

use crate::addr::{addr_eq, derive_address_raw, derived_address_of, Address};
use vstd::prelude::*;

verus! {

/// The namespace tag that prefixes the metadata program's record seeds.
pub open spec fn spec_metadata_tag() -> Seq<u8> {
    seq![109u8, 101u8, 116u8, 97u8, 100u8, 97u8, 116u8, 97u8]
}

/// The namespace tag that ends a master edition record's seeds.
pub open spec fn spec_edition_tag() -> Seq<u8> {
    seq![101u8, 100u8, 105u8, 116u8, 105u8, 111u8, 110u8]
}

/// The seed sequence that locates a mint's metadata record under the
/// metadata program.
pub open spec fn metadata_seeds(program: Seq<u8>, mint: Seq<u8>) -> Seq<Seq<u8>> {
    seq![spec_metadata_tag(), program, mint]
}

/// The seed sequence that locates a mint's master edition record under the
/// metadata program.
pub open spec fn master_edition_seeds(program: Seq<u8>, mint: Seq<u8>) -> Seq<Seq<u8>> {
    seq![spec_metadata_tag(), program, mint, spec_edition_tag()]
}

/// The UTF-8 bytes of the metadata namespace tag.
pub fn metadata_tag() -> (r: Vec<u8>)
    ensures
        r@ == spec_metadata_tag(),
{
    let mut v: Vec<u8> = Vec::new();
    v.push(109u8);
    v.push(101u8);
    v.push(116u8);
    v.push(97u8);
    v.push(100u8);
    v.push(97u8);
    v.push(116u8);
    v.push(97u8);
    proof {
        assert(v@ =~= spec_metadata_tag());
    }
    v
}

/// The UTF-8 bytes of the edition namespace tag.
pub fn edition_tag() -> (r: Vec<u8>)
    ensures
        r@ == spec_edition_tag(),
{
    let mut v: Vec<u8> = Vec::new();
    v.push(101u8);
    v.push(100u8);
    v.push(105u8);
    v.push(116u8);
    v.push(105u8);
    v.push(111u8);
    v.push(110u8);
    proof {
        assert(v@ =~= spec_edition_tag());
    }
    v
}

/// Re-derives the storage address of `mint`'s metadata record under the
/// metadata program at `program`.
pub fn metadata_address(program: &Address, mint: &Address) -> (r: Address)
    requires
        program.wf(),
    ensures
        r@ == derived_address_of(metadata_seeds(program@, mint@), program@),
        r@.len() == 32,
{
    let mut seeds: Vec<Vec<u8>> = Vec::new();
    seeds.push(metadata_tag());
    seeds.push(crate::addr::copy_bytes(&program.bytes));
    seeds.push(crate::addr::copy_bytes(&mint.bytes));
    proof {
        let dv = seeds.deep_view();
        assert(dv[0] =~= seeds@[0]@);
        assert(dv[1] =~= seeds@[1]@);
        assert(dv[2] =~= seeds@[2]@);
        assert(dv =~= metadata_seeds(program@, mint@));
    }
    derive_address_raw(&seeds, program)
}

/// Re-derives the storage address of `mint`'s master edition record under
/// the metadata program at `program`.
pub fn master_edition_address(program: &Address, mint: &Address) -> (r: Address)
    requires
        program.wf(),
    ensures
        r@ == derived_address_of(master_edition_seeds(program@, mint@), program@),
        r@.len() == 32,
{
    let mut seeds: Vec<Vec<u8>> = Vec::new();
    seeds.push(metadata_tag());
    seeds.push(crate::addr::copy_bytes(&program.bytes));
    seeds.push(crate::addr::copy_bytes(&mint.bytes));
    seeds.push(edition_tag());
    proof {
        let dv = seeds.deep_view();
        assert(dv[0] =~= seeds@[0]@);
        assert(dv[1] =~= seeds@[1]@);
        assert(dv[2] =~= seeds@[2]@);
        assert(dv[3] =~= seeds@[3]@);
        assert(dv =~= master_edition_seeds(program@, mint@));
    }
    derive_address_raw(&seeds, program)
}

/// The findings of one run of the verification flow, one flag per check.
pub struct VerifyReport {
    /// The token account is owned by the user presenting it.
    pub owner_matches: bool,
    /// The token account holds the mint under verification.
    pub mint_matches: bool,
    /// The token account holds exactly one token.
    pub amount_is_one: bool,
    /// The supplied master edition account sits at the derived address.
    pub master_edition_matches: bool,
    /// The master edition account holds data.
    pub master_edition_initialized: bool,
    /// The supplied metadata account sits at the derived address.
    pub metadata_matches: bool,
    /// The metadata account holds data.
    pub metadata_initialized: bool,
    /// The metadata's first creator is the expected creator.
    pub creator_matches: bool,
    /// The metadata's first creator has signed the metadata.
    pub creator_verified: bool,
}

impl VerifyReport {
    /// Every check passed.
    pub open spec fn all_passed(self) -> bool {
        self.owner_matches && self.mint_matches && self.amount_is_one
            && self.master_edition_matches && self.master_edition_initialized
            && self.metadata_matches && self.metadata_initialized && self.creator_matches
            && self.creator_verified
    }

    /// Whether every check passed.
    pub fn passed(&self) -> (r: bool)
        ensures
            r == self.all_passed(),
    {
        self.owner_matches && self.mint_matches && self.amount_is_one
            && self.master_edition_matches && self.master_edition_initialized
            && self.metadata_matches && self.metadata_initialized && self.creator_matches
            && self.creator_verified
    }
}

/// Runs every check of the verification flow on the facts the host read
/// from the chain, and reports each finding.
///
/// `token_owner`, `token_mint` and `token_amount` come from the token
/// account presented by `user`; `mint` is the mint account's address;
/// `metadata_key` and `master_edition_key` are the addresses of the
/// supplied metadata and master edition accounts, whose emptiness the host
/// reports in the two `*_has_data` arguments; `creator` and
/// `creator_signed` come from the first creator entry of the parsed
/// metadata, and `expected_creator` is the creator the flow demands. The
/// token account's mint seeds the master edition address, while the mint
/// account's own address seeds the metadata address.
pub fn verify_nft(
    user: &Address,
    token_owner: &Address,
    token_mint: &Address,
    token_amount: u64,
    mint: &Address,
    metadata_program: &Address,
    metadata_key: &Address,
    metadata_has_data: bool,
    master_edition_key: &Address,
    master_edition_has_data: bool,
    creator: &Address,
    creator_signed: bool,
    expected_creator: &Address,
) -> (r: VerifyReport)
    requires
        metadata_program.wf(),
    ensures
        r.owner_matches == (token_owner@ == user@),
        r.mint_matches == (token_mint@ == mint@),
        r.amount_is_one == (token_amount == 1),
        r.master_edition_matches == (master_edition_key@ == derived_address_of(
            master_edition_seeds(metadata_program@, token_mint@),
            metadata_program@,
        )),
        r.master_edition_initialized == master_edition_has_data,
        r.metadata_matches == (metadata_key@ == derived_address_of(
            metadata_seeds(metadata_program@, mint@),
            metadata_program@,
        )),
        r.metadata_initialized == metadata_has_data,
        r.creator_matches == (creator@ == expected_creator@),
        r.creator_verified == creator_signed,
{
    let derived_master_edition = master_edition_address(metadata_program, token_mint);
    let derived_metadata = metadata_address(metadata_program, mint);
    VerifyReport {
        owner_matches: addr_eq(token_owner, user),
        mint_matches: addr_eq(token_mint, mint),
        amount_is_one: token_amount == 1,
        master_edition_matches: addr_eq(master_edition_key, &derived_master_edition),
        master_edition_initialized: master_edition_has_data,
        metadata_matches: addr_eq(metadata_key, &derived_metadata),
        metadata_initialized: metadata_has_data,
        creator_matches: addr_eq(creator, expected_creator),
        creator_verified: creator_signed,
    }
}

} // verus!
