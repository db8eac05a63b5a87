//! Program-derived address (PDA) computation.
//!
//! The one-way derivation itself — a hash over the seed bytes with an
//! off-curve check, retried over a one-byte bump space — is done by the
//! `solana-program` crate; its result is named here and everything around the
//! call is verified.
use vstd::prelude::*;
use crate::state::{Address, address_wf, ADDRESS_LENGTH};

verus! {

/// What `Pubkey::try_find_program_address` returns for the given seed byte
/// strings and owning program identifier: the derived address bytes and the
/// bump nonce when the search succeeds, nothing when it fails.  The result is
/// a pure function of the seeds and the program identifier alone.
pub uninterp spec fn pda_of(seeds: Seq<Seq<u8>>, program_id: Seq<u8>) -> Option<(Seq<u8>, u8)>;

/// Relies on `solana_program::pubkey::Pubkey::try_find_program_address`: the
/// derivation is deterministic in the seeds and the program id, and a
/// returned address is exactly 32 bytes (a `Pubkey` is a 32-byte array).
#[verifier::external_body]
fn try_find_program_address(seeds: &Vec<Vec<u8>>, program_id: &Vec<u8>) -> (r: Option<
    (Vec<u8>, u8),
>)
    requires
        program_id@.len() == ADDRESS_LENGTH,
    ensures
        match r {
            Some(p) => pda_of(seeds@.map_values(|s: Vec<u8>| s@), program_id@) == Some(
                (p.0@, p.1),
            ) && p.0@.len() == ADDRESS_LENGTH,
            None => pda_of(seeds@.map_values(|s: Vec<u8>| s@), program_id@) is None,
        },
{
    let refs: Vec<&[u8]> = seeds.iter().map(|s| s.as_slice()).collect();
    let pid = solana_program::pubkey::Pubkey::new_from_array(
        program_id.as_slice().try_into().unwrap(),
    );
    match solana_program::pubkey::Pubkey::try_find_program_address(&refs, &pid) {
        Some((pk, bump)) => Some((pk.to_bytes().to_vec(), bump)),
        None => None,
    }
}

/// The domain-separation prefix for metadata accounts: the UTF-8 bytes of
/// `"metadata"`.
pub open spec fn prefix_bytes() -> Seq<u8> {
    seq![109u8, 101u8, 116u8, 97u8, 100u8, 97u8, 116u8, 97u8]
}

/// The sub-seed marking a master-edition account: the UTF-8 bytes of
/// `"edition"`.
pub open spec fn edition_bytes() -> Seq<u8> {
    seq![101u8, 100u8, 105u8, 116u8, 105u8, 111u8, 110u8]
}

/// The token-metadata program identifier.
pub open spec fn metaplex_id_bytes() -> Seq<u8> {
    seq![
        11u8,
        112u8,
        101u8,
        177u8,
        227u8,
        209u8,
        124u8,
        69u8,
        56u8,
        157u8,
        82u8,
        127u8,
        107u8,
        4u8,
        195u8,
        205u8,
        88u8,
        184u8,
        108u8,
        115u8,
        26u8,
        160u8,
        253u8,
        181u8,
        73u8,
        182u8,
        209u8,
        188u8,
        3u8,
        248u8,
        41u8,
        70u8,
    ]
}

/// The domain prefix as a seed value.
pub fn prefix_seed() -> (r: Vec<u8>)
    ensures
        r@ == prefix_bytes(),
{
    let mut r: Vec<u8> = Vec::new();
    r.push(109);
    r.push(101);
    r.push(116);
    r.push(97);
    r.push(100);
    r.push(97);
    r.push(116);
    r.push(97);
    proof {
        assert(r@ =~= prefix_bytes());
    }
    r
}

/// The edition sub-seed as a seed value.
pub fn edition_seed() -> (r: Vec<u8>)
    ensures
        r@ == edition_bytes(),
{
    let mut r: Vec<u8> = Vec::new();
    r.push(101);
    r.push(100);
    r.push(105);
    r.push(116);
    r.push(105);
    r.push(111);
    r.push(110);
    proof {
        assert(r@ =~= edition_bytes());
    }
    r
}

/// The token-metadata program identifier as an address.
pub fn metaplex_program_id() -> (r: Address)
    ensures
        r@ == metaplex_id_bytes(),
        address_wf(r),
{
    let mut bytes: Vec<u8> = Vec::new();
    bytes.push(11);
    bytes.push(112);
    bytes.push(101);
    bytes.push(177);
    bytes.push(227);
    bytes.push(209);
    bytes.push(124);
    bytes.push(69);
    bytes.push(56);
    bytes.push(157);
    bytes.push(82);
    bytes.push(127);
    bytes.push(107);
    bytes.push(4);
    bytes.push(195);
    bytes.push(205);
    bytes.push(88);
    bytes.push(184);
    bytes.push(108);
    bytes.push(115);
    bytes.push(26);
    bytes.push(160);
    bytes.push(253);
    bytes.push(181);
    bytes.push(73);
    bytes.push(182);
    bytes.push(209);
    bytes.push(188);
    bytes.push(3);
    bytes.push(248);
    bytes.push(41);
    bytes.push(70);
    proof {
        assert(bytes@ =~= metaplex_id_bytes());
    }
    Address { bytes }
}

/// The seed tuple from which a metadata account's address is derived.
pub open spec fn metadata_seeds(mint: Seq<u8>) -> Seq<Seq<u8>> {
    seq![prefix_bytes(), metaplex_id_bytes(), mint]
}

/// The seed tuple from which a master-edition account's address is derived.
pub open spec fn master_edition_seeds(mint: Seq<u8>) -> Seq<Seq<u8>> {
    seq![prefix_bytes(), metaplex_id_bytes(), mint, edition_bytes()]
}

/// The derived metadata account address for a mint, with its bump nonce.
pub open spec fn spec_metadata_pda(mint: Seq<u8>) -> Option<(Seq<u8>, u8)> {
    pda_of(metadata_seeds(mint), metaplex_id_bytes())
}

/// The derived master-edition account address for a mint, with its bump
/// nonce.
pub open spec fn spec_master_edition_pda(mint: Seq<u8>) -> Option<(Seq<u8>, u8)> {
    pda_of(master_edition_seeds(mint), metaplex_id_bytes())
}

/// Derives the metadata account address for a mint.  Returns nothing exactly
/// when the bump search of the derivation fails.
pub fn get_metadata_pda(mint: &Address) -> (r: Option<Address>)
    ensures
        match r {
            Some(a) => spec_metadata_pda(mint@) matches Some(p) && a@ == p.0 && address_wf(a),
            None => spec_metadata_pda(mint@) is None,
        },
{
    let metaplex_pubkey = metaplex_program_id();
    let mut seeds: Vec<Vec<u8>> = Vec::new();
    seeds.push(prefix_seed());
    seeds.push(metaplex_program_id().bytes);
    seeds.push(mint.dup().bytes);
    proof {
        assert(seeds@.map_values(|s: Vec<u8>| s@) =~= metadata_seeds(mint@));
    }
    match try_find_program_address(&seeds, &metaplex_pubkey.bytes) {
        Some((bytes, _bump)) => Some(Address { bytes }),
        None => None,
    }
}

/// Derives the master-edition account address for a mint, together with the
/// bump nonce found.  Returns nothing exactly when the bump search of the
/// derivation fails.
pub fn get_master_edition_pda(mint: &Address) -> (r: Option<(Address, u8)>)
    ensures
        match r {
            Some(p) => spec_master_edition_pda(mint@) matches Some(q) && p.0@ == q.0 && p.1 == q.1
                && address_wf(p.0),
            None => spec_master_edition_pda(mint@) is None,
        },
{
    let metaplex_pubkey = metaplex_program_id();
    let mut seeds: Vec<Vec<u8>> = Vec::new();
    seeds.push(prefix_seed());
    seeds.push(metaplex_program_id().bytes);
    seeds.push(mint.dup().bytes);
    seeds.push(edition_seed());
    proof {
        assert(seeds@.map_values(|s: Vec<u8>| s@) =~= master_edition_seeds(mint@));
    }
    match try_find_program_address(&seeds, &metaplex_pubkey.bytes) {
        Some((bytes, bump)) => Some((Address { bytes }, bump)),
        None => None,
    }
}

/// Address derivation is deterministic: identical seed tuples and program
/// identifiers always derive the identical address and bump nonce.
pub proof fn lemma_pda_deterministic(
    seeds1: Seq<Seq<u8>>,
    seeds2: Seq<Seq<u8>>,
    pid1: Seq<u8>,
    pid2: Seq<u8>,
)
    requires
        seeds1 == seeds2,
        pid1 == pid2,
    ensures
        pda_of(seeds1, pid1) == pda_of(seeds2, pid2),
{
}

} // verus!
