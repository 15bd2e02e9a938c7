//! Account addresses and deterministic address derivation.

use vstd::prelude::*;

verus! {

/// A 32-byte account address (a public key of the hosting chain).
///
/// Addresses identify every record of the marketplace: collections, apps,
/// NFT records, owners and renters. The library never inspects the bytes
/// beyond comparing them and feeding them into address derivation.
pub struct Address {
    pub bytes: Vec<u8>,
}

impl View for Address {
    type V = Seq<u8>;

    open spec fn view(&self) -> Seq<u8> {
        self.bytes@
    }
}

impl Address {
    /// A well-formed address holds exactly 32 bytes.
    pub open spec fn wf(&self) -> bool {
        self@.len() == 32
    }

    pub fn new(bytes: Vec<u8>) -> (r: Address)
        ensures
            r@ == bytes@,
    {
        Address { bytes }
    }

    pub fn clone_addr(&self) -> (r: Address)
        ensures
            r@ == self@,
    {
        let mut out: Vec<u8> = Vec::new();
        let mut i: usize = 0;
        while i < self.bytes.len()
            invariant
                0 <= i <= self.bytes@.len(),
                out@ == self.bytes@.subrange(0, i as int),
            decreases self.bytes@.len() - i,
        {
            out.push(self.bytes[i]);
            i += 1;
        }
        proof {
            assert(out@ =~= self.bytes@);
        }
        Address { bytes: out }
    }
}

/// The address that the chain's deterministic derivation scheme assigns to
/// the given namespace-tagged seeds under the given program id. The scheme
/// hashes the seeds, a bump byte and the program id with SHA-256 and picks
/// the first off-curve candidate; its exact value is not axiomatized here,
/// only that it is a function of the seeds and the program id alone.
pub uninterp spec fn derived_address_of(seeds: Seq<Seq<u8>>, program_id: Seq<u8>) -> Seq<u8>;

/// Relies on `derive_program_address` (re-exported by `anchor_lang` from
/// `const_crypto::ed25519`): the derived address and bump depend on the
/// seeds and the program id alone, and the address is a 32-byte SHA-256
/// digest. The search loop fails to terminate only if 256 consecutive
/// digests all decode to curve points, which no seed set is known to cause
/// and which cannot be characterized over the arguments.
#[verifier::external_body]
pub(crate) fn derive_address_raw(seeds: &Vec<Vec<u8>>, program_id: &Address) -> (r: Address)
    requires
        program_id.wf(),
    ensures
        r@ == derived_address_of(seeds.deep_view(), program_id@),
        r@.len() == 32,
{
    let seed_slices: Vec<&[u8]> = seeds.iter().map(|s| s.as_slice()).collect();
    let mut program: [u8; 32] = [0u8; 32];
    program.copy_from_slice(&program_id.bytes);
    let (pda, _bump) = anchor_lang::derive_program_address(&seed_slices, &program);
    Address { bytes: pda.to_vec() }
}

/// The namespace tag that prefixes every collection record's seeds.
pub open spec fn spec_collection_tag() -> Seq<u8> {
    seq![99u8, 111u8, 108u8, 108u8, 101u8, 99u8, 116u8, 105u8, 111u8, 110u8]
}

/// The namespace tag that prefixes every NFT record's seeds.
pub open spec fn spec_nft_tag() -> Seq<u8> {
    seq![110u8, 102u8, 116u8]
}

/// The seed sequence that locates a collection record: the collection
/// namespace tag, the collection's symbol, and its authority's address.
pub open spec fn collection_seeds(symbol: Seq<u8>, authority: Seq<u8>) -> Seq<Seq<u8>> {
    seq![spec_collection_tag(), symbol, authority]
}

/// The seed sequence that locates an NFT record: the NFT namespace tag and
/// the mint's address.
pub open spec fn nft_seeds(mint: Seq<u8>) -> Seq<Seq<u8>> {
    seq![spec_nft_tag(), mint]
}

/// The UTF-8 bytes of the collection namespace tag.
pub fn collection_tag() -> (r: Vec<u8>)
    ensures
        r@ == spec_collection_tag(),
{
    let mut v: Vec<u8> = Vec::new();
    v.push(99u8);
    v.push(111u8);
    v.push(108u8);
    v.push(108u8);
    v.push(101u8);
    v.push(99u8);
    v.push(116u8);
    v.push(105u8);
    v.push(111u8);
    v.push(110u8);
    proof {
        assert(v@ =~= spec_collection_tag());
    }
    v
}

/// The UTF-8 bytes of the NFT namespace tag.
pub fn nft_tag() -> (r: Vec<u8>)
    ensures
        r@ == spec_nft_tag(),
{
    let mut v: Vec<u8> = Vec::new();
    v.push(110u8);
    v.push(102u8);
    v.push(116u8);
    proof {
        assert(v@ =~= spec_nft_tag());
    }
    v
}

/// Copies a byte vector.
pub fn copy_bytes(src: &Vec<u8>) -> (r: Vec<u8>)
    ensures
        r@ == src@,
{
    let mut out: Vec<u8> = Vec::new();
    let mut i: usize = 0;
    while i < src.len()
        invariant
            0 <= i <= src@.len(),
            out@ == src@.subrange(0, i as int),
        decreases src@.len() - i,
    {
        out.push(src[i]);
        i += 1;
    }
    proof {
        assert(out@ =~= src@);
    }
    out
}

/// Re-derives the storage address of the collection record identified by
/// `symbol` and `authority` under `program_id`.
pub fn collection_address(program_id: &Address, symbol: &Vec<u8>, authority: &Address) -> (r:
    Address)
    requires
        program_id.wf(),
    ensures
        r@ == derived_address_of(collection_seeds(symbol@, authority@), program_id@),
        r@.len() == 32,
{
    let mut seeds: Vec<Vec<u8>> = Vec::new();
    seeds.push(collection_tag());
    seeds.push(copy_bytes(symbol));
    seeds.push(copy_bytes(&authority.bytes));
    proof {
        let dv = seeds.deep_view();
        assert(dv[0] =~= seeds@[0]@);
        assert(dv[1] =~= seeds@[1]@);
        assert(dv[2] =~= seeds@[2]@);
        assert(dv =~= collection_seeds(symbol@, authority@));
    }
    derive_address_raw(&seeds, program_id)
}

/// Re-derives the storage address of the NFT record identified by `mint`
/// under `program_id`.
pub fn nft_address(program_id: &Address, mint: &Address) -> (r: Address)
    requires
        program_id.wf(),
    ensures
        r@ == derived_address_of(nft_seeds(mint@), program_id@),
        r@.len() == 32,
{
    let mut seeds: Vec<Vec<u8>> = Vec::new();
    seeds.push(nft_tag());
    seeds.push(copy_bytes(&mint.bytes));
    proof {
        let dv = seeds.deep_view();
        assert(dv[0] =~= seeds@[0]@);
        assert(dv[1] =~= seeds@[1]@);
        assert(dv =~= nft_seeds(mint@));
    }
    derive_address_raw(&seeds, program_id)
}

/// Byte-wise equality of two addresses.
pub fn addr_eq(a: &Address, b: &Address) -> (r: bool)
    ensures
        r == (a@ == b@),
{
    if a.bytes.len() != b.bytes.len() {
        proof {
            assert(a@.len() != b@.len());
        }
        return false;
    }
    let mut i: usize = 0;
    while i < a.bytes.len()
        invariant
            0 <= i <= a.bytes@.len(),
            a.bytes@.len() == b.bytes@.len(),
            forall|j: int| 0 <= j < i ==> a.bytes@[j] == b.bytes@[j],
        decreases a.bytes@.len() - i,
    {
        if a.bytes[i] != b.bytes[i] {
            proof {
                assert(a@[i as int] != b@[i as int]);
            }
            return false;
        }
        i += 1;
    }
    proof {
        assert(a@ =~= b@);
    }
    true
}

} // verus!
