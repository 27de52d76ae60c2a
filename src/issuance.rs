//! The ordered steps of one issuance.
//!
//! The ledger and the metadata registry are reached by the host, not here:
//! `mint_planet_nft` checks the presented addresses and names the first
//! request, and `Issuance::on_outcome` takes each answer and names the next
//! request or the final result. Every failure ends the issuance at once.

use crate::address::{
    addresses_match, derive_authority, derive_metadata_address, derive_resource,
    derivation, metadata_program_id, metadata_seeds, tagged_seeds, Address, AUTHORITY_TAG,
    METADATA_PROGRAM_ID, RESOURCE_TAG,
};
use vstd::prelude::*;
use vstd::slice::slice_to_vec;
use vstd::string::StringSliceAdditionalSpecFns;

verus! {

/// Symbol of every planet token.
pub const SYMBOL: &'static str = "PLANET";

/// Why an issuance failed.
#[derive(Clone, Copy, Debug, PartialEq, Eq)]
pub enum ErrorCode {
    /// The presented metadata address is not the registry's address for the mint.
    InvalidMetadataAccount,
    /// The authorization was rejected: a presented address does not match its
    /// derivation, or a collaborator refused the derivation proof.
    AuthorizationError,
    /// The ledger could not issue the unit (the identifier was used before, or
    /// backing resources ran out).
    IssuanceError,
    /// No address can be derived from the identifier (it is too long).
    AddressDerivationFailed,
}

/// The addresses presented by the caller for one issuance.
#[derive(Clone, Copy, Debug, PartialEq, Eq)]
pub struct MintPlanetNft {
    /// The resource (mint) address.
    pub mint: Address,
    /// The authority address that signs for the mint.
    pub mint_authority: Address,
    /// The holding account that receives the unit.
    pub token_account: Address,
    /// Where the registry is to write the descriptive record.
    pub metadata: Address,
    /// Who pays for the new records.
    pub payer: Address,
}

/// The descriptive record attached to the issued resource.
pub struct MetadataRecord {
    pub name: String,
    pub symbol: String,
    pub uri: String,
    pub seller_fee_basis_points: u16,
    pub creators: Vec<Address>,
    pub is_mutable: bool,
    pub update_authority_is_signer: bool,
}

/// How far an issuance has come.
#[derive(Clone, Copy, Debug, PartialEq, Eq)]
pub enum Phase {
    /// The presented addresses match their derivations; the unit is requested.
    Authorized,
    /// The unit is issued; the descriptive record is requested.
    Issued,
    /// Done: the unit is issued and described.
    MetadataAttached,
    /// Failed, for good.
    Aborted(ErrorCode),
}

/// What the host is to do next.
#[derive(Clone, Copy, Debug, PartialEq, Eq)]
pub enum Action {
    /// Ask the ledger to issue `amount` units of `mint` into `to`, signed by
    /// `authority` through the issuance's signer seeds.
    MintOne { mint: Address, to: Address, authority: Address, amount: u64 },
    /// Ask `registry` to write the issuance's record at `metadata` for `mint`,
    /// with `authority` as mint and update authority, signed through the
    /// issuance's signer seeds.
    AttachMetadata {
        registry: Address,
        metadata: Address,
        mint: Address,
        authority: Address,
        payer: Address,
    },
    /// Stop, with this result.
    Finish(Result<(), ErrorCode>),
}

/// The answer of a collaborator to the last request.
#[derive(Clone, Copy, Debug, PartialEq, Eq)]
pub enum Outcome {
    Done,
    Failed(ErrorCode),
}

/// One issuance in progress.
pub struct Issuance {
    pub phase: Phase,
    pub accounts: MintPlanetNft,
    /// The metadata registry program.
    pub registry: Address,
    /// The derivation proof of the authority address: its tag, the identifier
    /// and the nonce, which sign in its place.
    pub signer_seeds: Vec<Vec<u8>>,
    pub record: MetadataRecord,
}

/// The signer seeds for `identifier` with `nonce`.
pub open spec fn proof_seeds(identifier: Seq<u8>, nonce: u8) -> Seq<Seq<u8>> {
    tagged_seeds(AUTHORITY_TAG, identifier).push(seq![nonce])
}

/// The nonce of the authority address for `identifier`.
pub open spec fn authority_nonce(program_id: Seq<u8>, identifier: Seq<u8>) -> u8 {
    match derivation(tagged_seeds(AUTHORITY_TAG, identifier), program_id) {
        Some(p) => p.1,
        None => 0,
    }
}

/// The id of the metadata registry program, as bytes.
pub open spec fn registry_address() -> Seq<u8> {
    METADATA_PROGRAM_ID@
}

/// The presented metadata address is `registry`'s address for the mint.
pub open spec fn metadata_verified(accounts: MintPlanetNft, registry: Address) -> bool {
    match derivation(metadata_seeds(registry.bytes@, accounts.mint.bytes@), registry.bytes@) {
        Some(p) => p.0 == accounts.metadata.bytes@,
        None => false,
    }
}

/// The presented address is the derivation of `seeds` under `program_id`.
pub open spec fn presented_as(seeds: Seq<Seq<u8>>, program_id: Seq<u8>, a: Address) -> bool {
    match derivation(seeds, program_id) {
        Some(p) => p.0 == a.bytes@,
        None => false,
    }
}

/// The phase and action that open an issuance of `identifier`.
pub open spec fn opening(program_id: Seq<u8>, accounts: MintPlanetNft, identifier: Seq<u8>) -> (Phase, Action) {
    let authority = tagged_seeds(AUTHORITY_TAG, identifier);
    let resource = tagged_seeds(RESOURCE_TAG, identifier);
    if derivation(authority, program_id) is None || derivation(resource, program_id) is None {
        let e = ErrorCode::AddressDerivationFailed;
        (Phase::Aborted(e), Action::Finish(Err(e)))
    } else if !presented_as(authority, program_id, accounts.mint_authority) || !presented_as(
        resource,
        program_id,
        accounts.mint,
    ) {
        let e = ErrorCode::AuthorizationError;
        (Phase::Aborted(e), Action::Finish(Err(e)))
    } else {
        (
            Phase::Authorized,
            Action::MintOne {
                mint: accounts.mint,
                to: accounts.token_account,
                authority: accounts.mint_authority,
                amount: 1,
            },
        )
    }
}

/// The phase and action after `outcome` answers the request of `phase`.
pub open spec fn advance(phase: Phase, accounts: MintPlanetNft, registry: Address, outcome: Outcome) -> (Phase, Action) {
    match phase {
        Phase::Authorized => match outcome {
            Outcome::Failed(e) => (Phase::Aborted(e), Action::Finish(Err(e))),
            Outcome::Done => if metadata_verified(accounts, registry) {
                (
                    Phase::Issued,
                    Action::AttachMetadata {
                        registry,
                        metadata: accounts.metadata,
                        mint: accounts.mint,
                        authority: accounts.mint_authority,
                        payer: accounts.payer,
                    },
                )
            } else {
                let e = ErrorCode::InvalidMetadataAccount;
                (Phase::Aborted(e), Action::Finish(Err(e)))
            },
        },
        Phase::Issued => match outcome {
            Outcome::Failed(e) => (Phase::Aborted(e), Action::Finish(Err(e))),
            Outcome::Done => (Phase::MetadataAttached, Action::Finish(Ok(()))),
        },
        Phase::MetadataAttached => (phase, Action::Finish(Ok(()))),
        Phase::Aborted(e) => (phase, Action::Finish(Err(e))),
    }
}

/// The record this core attaches: the caller's name and content reference,
/// the fixed symbol, no royalty, no creators, never to be changed.
pub open spec fn record_for(r: MetadataRecord, name: Seq<char>, uri: Seq<char>) -> bool {
    &&& r.name@ == name
    &&& r.symbol@ == SYMBOL@
    &&& r.uri@ == uri
    &&& r.seller_fee_basis_points == 0
    &&& r.creators@.len() == 0
    &&& !r.is_mutable
    &&& r.update_authority_is_signer
}

/// Starts the issuance of `planet_id` by the program `program_id`:
/// derives the authority and resource addresses, checks them against the
/// presented ones, and asks for one unit to be issued.
pub fn mint_planet_nft(
    program_id: &Address,
    accounts: MintPlanetNft,
    planet_id: &str,
    planet_name: String,
    metadata_uri: String,
) -> (r: (Issuance, Action))
    ensures
        (r.0.phase, r.1) == opening(program_id.bytes@, accounts, planet_id.spec_bytes()),
        r.0.accounts == accounts,
        r.0.registry.bytes@ == registry_address(),
        r.0.phase == Phase::Authorized ==> seed_views_of(r.0.signer_seeds) == proof_seeds(
            planet_id.spec_bytes(),
            authority_nonce(program_id.bytes@, planet_id.spec_bytes()),
        ),
        record_for(r.0.record, planet_name@, metadata_uri@),
{
    let identifier = planet_id.as_bytes();
    let registry = metadata_program_id();
    let record = MetadataRecord {
        name: planet_name,
        symbol: SYMBOL.to_owned(),
        uri: metadata_uri,
        seller_fee_basis_points: 0,
        creators: Vec::new(),
        is_mutable: false,
        update_authority_is_signer: true,
    };
    let authority = derive_authority(identifier, program_id);
    let resource = derive_resource(identifier, program_id);
    let mut signer_seeds: Vec<Vec<u8>> = Vec::new();
    let (phase, action) = match (authority, resource) {
        (Some((a, nonce)), Some((m, _))) => {
            if addresses_match(&a, &accounts.mint_authority) && addresses_match(&m, &accounts.mint) {
                let nonce_seed: Vec<u8> = vec![nonce];
                assert(nonce_seed@ =~= seq![nonce]);
                signer_seeds = vec![
                    slice_to_vec(AUTHORITY_TAG.as_bytes()),
                    slice_to_vec(identifier),
                    nonce_seed,
                ];
                assert(seed_views_of(signer_seeds) =~= proof_seeds(identifier@, nonce));
                (
                    Phase::Authorized,
                    Action::MintOne {
                        mint: accounts.mint,
                        to: accounts.token_account,
                        authority: accounts.mint_authority,
                        amount: 1,
                    },
                )
            } else {
                let e = ErrorCode::AuthorizationError;
                (Phase::Aborted(e), Action::Finish(Err(e)))
            }
        },
        _ => {
            let e = ErrorCode::AddressDerivationFailed;
            (Phase::Aborted(e), Action::Finish(Err(e)))
        },
    };
    (Issuance { phase, accounts, registry, signer_seeds, record }, action)
}

impl Issuance {
    /// Takes the answer to the last request and names the next step. A
    /// failure is passed on unchanged and ends the issuance; the record is
    /// only requested once the unit is issued and the presented metadata
    /// address is the registry's own for the mint.
    pub fn on_outcome(&mut self, outcome: Outcome) -> (r: Action)
        ensures
            (final(self).phase, r) == advance(
                old(self).phase,
                old(self).accounts,
                old(self).registry,
                outcome,
            ),
            final(self).accounts == old(self).accounts,
            final(self).registry == old(self).registry,
            final(self).signer_seeds == old(self).signer_seeds,
            final(self).record == old(self).record,
    {
        match self.phase {
            Phase::Authorized => match outcome {
                Outcome::Failed(e) => {
                    self.phase = Phase::Aborted(e);
                    Action::Finish(Err(e))
                },
                Outcome::Done => {
                    let expected = derive_metadata_address(&self.registry, &self.accounts.mint);
                    let verified = match expected {
                        Some((m, _)) => addresses_match(&m, &self.accounts.metadata),
                        None => false,
                    };
                    if verified {
                        self.phase = Phase::Issued;
                        Action::AttachMetadata {
                            registry: self.registry,
                            metadata: self.accounts.metadata,
                            mint: self.accounts.mint,
                            authority: self.accounts.mint_authority,
                            payer: self.accounts.payer,
                        }
                    } else {
                        let e = ErrorCode::InvalidMetadataAccount;
                        self.phase = Phase::Aborted(e);
                        Action::Finish(Err(e))
                    }
                },
            },
            Phase::Issued => match outcome {
                Outcome::Failed(e) => {
                    self.phase = Phase::Aborted(e);
                    Action::Finish(Err(e))
                },
                Outcome::Done => {
                    self.phase = Phase::MetadataAttached;
                    Action::Finish(Ok(()))
                },
            },
            Phase::MetadataAttached => Action::Finish(Ok(())),
            Phase::Aborted(e) => Action::Finish(Err(e)),
        }
    }
}

/// Once an issuance has failed it stays failed with the same error, whatever
/// answer comes next, and a collaborator's failure is passed on unchanged: an
/// identifier whose unit the ledger refuses (because it was issued before)
/// ends the issuance with the ledger's error and asks for nothing more.
pub proof fn lemma_failure_is_final(
    phase: Phase,
    accounts: MintPlanetNft,
    registry: Address,
    e: ErrorCode,
    next: Outcome,
)
    ensures
        phase is Authorized || phase is Issued ==> advance(phase, accounts, registry, Outcome::Failed(e))
            == (Phase::Aborted(e), Action::Finish(Err(e))),
        advance(Phase::Aborted(e), accounts, registry, next) == (
            Phase::Aborted(e),
            Action::Finish(Err(e)),
        ),
{
}

/// When the presented metadata address is not the registry's address for the
/// presented mint, the issuance fails with `InvalidMetadataAccount` as soon as
/// the unit is issued, and no run of it ever asks for a record to be written.
pub proof fn lemma_tampered_metadata_rejected(
    program_id: Seq<u8>,
    accounts: MintPlanetNft,
    identifier: Seq<u8>,
    registry: Address,
)
    requires
        !metadata_verified(accounts, registry),
    ensures
        advance(Phase::Authorized, accounts, registry, Outcome::Done) == (
            Phase::Aborted(ErrorCode::InvalidMetadataAccount),
            Action::Finish(Err(ErrorCode::InvalidMetadataAccount)),
        ),
        !(opening(program_id, accounts, identifier).0 is Issued),
        forall|phase: Phase, outcome: Outcome|
            !(phase is Issued) ==> {
                let (p, a) = #[trigger] advance(phase, accounts, registry, outcome);
                !(p is Issued) && !(a is AttachMetadata)
            },
{
}

/// The signer seeds as byte sequences.
pub open spec fn seed_views_of(seeds: Vec<Vec<u8>>) -> Seq<Seq<u8>> {
    seeds@.map_values(|s: Vec<u8>| s@)
}

} // verus!
