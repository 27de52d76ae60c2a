//! Deterministic program-derived addresses.
//!
//! An address is derived from a list of seeds (a namespace tag first) and the
//! id of the program that owns it, together with a one-byte nonce (the bump)
//! that makes the address unusable as a signing key.

use anchor_lang::prelude::Pubkey;
use vstd::prelude::*;
use vstd::slice::slice_to_vec;
use vstd::string::StringSliceAdditionalSpecFns;

verus! {

#[verifier::external_type_specification]
#[verifier::external_body]
pub struct ExPubkey(Pubkey);

/// A 32-byte ledger address.
#[derive(Clone, Copy, Debug, PartialEq, Eq, Hash)]
pub struct Address {
    pub bytes: [u8; 32],
}

/// Most seeds one derivation may take, the nonce included.
pub const MAX_SEEDS: usize = 16;

/// Longest seed, in bytes.
pub const MAX_SEED_LEN: usize = 32;

/// Namespace tag of the resource (mint) address.
pub const RESOURCE_TAG: &'static str = "planet_nft";

/// Namespace tag of the authority address.
pub const AUTHORITY_TAG: &'static str = "mint_authority";

/// Namespace tag of the metadata registry's records.
pub const METADATA_TAG: &'static str = "metadata";

/// Bytes of the metadata registry program's id
/// (`metaqbxxUerdq28cj1RbAWkYQm3ybzjb6a8bt518x1s`).
pub const METADATA_PROGRAM_ID: [u8; 32] = [
    11, 112, 101, 177, 227, 209, 124, 69, 56, 157, 82, 127, 107, 4, 195, 205, 88, 184, 108, 115,
    26, 160, 253, 181, 73, 182, 209, 188, 3, 248, 41, 70,
];

/// The address and nonce that the ledger finds for `seeds` under `program_id`,
/// or none when no nonce gives a valid address.
pub uninterp spec fn program_address(seeds: Seq<Seq<u8>>, program_id: Seq<u8>) -> Option<(Seq<u8>, u8)>;

pub open spec fn seed_views(seeds: Seq<Vec<u8>>) -> Seq<Seq<u8>> {
    seeds.map_values(|s: Vec<u8>| s@)
}

/// The seeds leave room for the nonce and no seed is too long.
pub open spec fn seeds_within_limits(seeds: Seq<Seq<u8>>) -> bool {
    &&& seeds.len() < MAX_SEEDS
    &&& forall|i: int| 0 <= i < seeds.len() ==> #[trigger] seeds[i].len() <= MAX_SEED_LEN
}

/// What a derivation returns: the ledger's address for the seeds when they
/// are within the limits, otherwise none.
pub open spec fn derivation(seeds: Seq<Seq<u8>>, program_id: Seq<u8>) -> Option<(Seq<u8>, u8)> {
    if seeds_within_limits(seeds) {
        program_address(seeds, program_id)
    } else {
        None
    }
}

/// `r` is what `derivation(seeds, program_id)` describes.
pub open spec fn derived_as(r: Option<(Address, u8)>, seeds: Seq<Seq<u8>>, program_id: Seq<u8>) -> bool {
    match r {
        Some(p) => derivation(seeds, program_id) == Some((p.0.bytes@, p.1)),
        None => derivation(seeds, program_id) is None,
    }
}

/// Relies on `Pubkey::try_find_program_address`: the address and bump found
/// for the seeds under the program depend on those alone, and the search gives
/// up (returns `None`) when the seeds, with the bump appended, exceed
/// `MAX_SEEDS`, or a seed exceeds `MAX_SEED_LEN` bytes.
#[verifier::external_body]
fn find_program_address(seeds: &Vec<Vec<u8>>, program_id: &Address) -> (r: Option<(Address, u8)>)
    ensures
        match r {
            Some(p) => program_address(seed_views(seeds@), program_id.bytes@) == Some(
                (p.0.bytes@, p.1),
            ),
            None => program_address(seed_views(seeds@), program_id.bytes@) is None,
        },
        !seeds_within_limits(seed_views(seeds@)) ==> r is None,
{
    let refs: Vec<&[u8]> = seeds.iter().map(|s| s.as_slice()).collect();
    let key = Pubkey::new_from_array(program_id.bytes);
    Pubkey::try_find_program_address(&refs, &key).map(|(k, b)| (Address { bytes: k.to_bytes() }, b))
}

/// Relies on `mpl_token_metadata::ID`: the registry program's id, whose bytes
/// are `METADATA_PROGRAM_ID`.
#[verifier::external_body]
fn registry_program_id() -> (r: Address)
    ensures
        r.bytes@ == METADATA_PROGRAM_ID@,
{
    Address { bytes: mpl_token_metadata::ID.to_bytes() }
}

/// The id of the metadata registry program.
pub fn metadata_program_id() -> (r: Address)
    ensures
        r.bytes@ == METADATA_PROGRAM_ID@,
{
    registry_program_id()
}

/// Whether two addresses are the same, byte for byte.
pub fn addresses_match(a: &Address, b: &Address) -> (r: bool)
    ensures
        r == (a.bytes@ == b.bytes@),
{
    let mut i: usize = 0;
    while i < 32
        invariant
            i <= 32,
            forall|j: int| 0 <= j < i ==> a.bytes@[j] == b.bytes@[j],
        decreases 32 - i,
    {
        if a.bytes[i] != b.bytes[i] {
            assert(a.bytes@[i as int] != b.bytes@[i as int]);
            return false;
        }
        i = i + 1;
    }
    assert(a.bytes@ =~= b.bytes@);
    true
}

/// The seeds of a derivation in `tag`'s namespace for `identifier`.
pub open spec fn tagged_seeds(tag: &str, identifier: Seq<u8>) -> Seq<Seq<u8>> {
    seq![tag.spec_bytes(), identifier]
}

/// Derives the address in `tag`'s namespace for `identifier`, owned by
/// `program_id`, with its nonce. The same arguments always give the same
/// result, and nothing is changed.
pub fn derive_address(tag: &str, identifier: &[u8], program_id: &Address) -> (r: Option<(Address, u8)>)
    ensures
        derived_as(r, tagged_seeds(tag, identifier@), program_id.bytes@),
{
    let seeds: Vec<Vec<u8>> = vec![slice_to_vec(tag.as_bytes()), slice_to_vec(identifier)];
    assert(seed_views(seeds@) =~= tagged_seeds(tag, identifier@));
    find_program_address(&seeds, program_id)
}

/// Derivation is deterministic: any two results of `derive_address` for the same tag,
/// identifier and program are the same address with the same nonce, or both
/// absent.
pub proof fn lemma_derive_deterministic(
    r1: Option<(Address, u8)>,
    r2: Option<(Address, u8)>,
    tag: &str,
    identifier: Seq<u8>,
    program_id: Seq<u8>,
)
    requires
        derived_as(r1, tagged_seeds(tag, identifier), program_id),
        derived_as(r2, tagged_seeds(tag, identifier), program_id),
    ensures
        match (r1, r2) {
            (Some(a), Some(b)) => a.0.bytes@ == b.0.bytes@ && a.1 == b.1,
            (None, None) => true,
            _ => false,
        },
{
}

/// The authority address for `identifier`: the principal that signs for its
/// issuance.
pub fn derive_authority(identifier: &[u8], program_id: &Address) -> (r: Option<(Address, u8)>)
    ensures
        derived_as(r, tagged_seeds(AUTHORITY_TAG, identifier@), program_id.bytes@),
{
    derive_address(AUTHORITY_TAG, identifier, program_id)
}

/// The resource address for `identifier`: the mint of its one unit.
pub fn derive_resource(identifier: &[u8], program_id: &Address) -> (r: Option<(Address, u8)>)
    ensures
        derived_as(r, tagged_seeds(RESOURCE_TAG, identifier@), program_id.bytes@),
{
    derive_address(RESOURCE_TAG, identifier, program_id)
}

/// The seeds of the registry's record for `mint`.
pub open spec fn metadata_seeds(registry: Seq<u8>, mint: Seq<u8>) -> Seq<Seq<u8>> {
    seq![METADATA_TAG.spec_bytes(), registry, mint]
}

/// The registry's rule for where the descriptive record of `mint` lives.
pub fn derive_metadata_address(registry: &Address, mint: &Address) -> (r: Option<(Address, u8)>)
    ensures
        derived_as(r, metadata_seeds(registry.bytes@, mint.bytes@), registry.bytes@),
{
    let seeds: Vec<Vec<u8>> = vec![
        slice_to_vec(METADATA_TAG.as_bytes()),
        slice_to_vec(registry.bytes.as_slice()),
        slice_to_vec(mint.bytes.as_slice()),
    ];
    assert(seed_views(seeds@) =~= metadata_seeds(registry.bytes@, mint.bytes@));
    find_program_address(&seeds, registry)
}

} // verus!
