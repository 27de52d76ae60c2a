use anchor_lang::prelude::Pubkey;
use planet_nft::address::{derive_authority, derive_metadata_address, derive_resource, metadata_program_id, Address};
use planet_nft::issuance::{mint_planet_nft, Action, ErrorCode, Issuance, MintPlanetNft, Outcome, Phase, SYMBOL};
use std::collections::HashSet;
use std::str::FromStr;

fn program() -> Address {
    Address { bytes: Pubkey::from_str("Fb7uNXapsRwUdsvGDedesLS7D1A4AHk6CeMvrrvTVqwf").unwrap().to_bytes() }
}

fn accounts_for(id: &str) -> MintPlanetNft {
    let p = program();
    let (mint, _) = derive_resource(id.as_bytes(), &p).unwrap();
    let (mint_authority, _) = derive_authority(id.as_bytes(), &p).unwrap();
    let (metadata, _) = derive_metadata_address(&metadata_program_id(), &mint).unwrap();
    MintPlanetNft {
        mint,
        mint_authority,
        token_account: Address { bytes: [3; 32] },
        metadata,
        payer: Address { bytes: [9; 32] },
    }
}

/// A ledger that issues each mint once, and a registry that keeps records.
struct Host {
    issued: HashSet<Address>,
    records: Vec<(Address, String, String, String, u16, bool)>,
}

impl Host {
    fn run(&mut self, id: &str, name: &str, uri: &str, accounts: MintPlanetNft) -> Result<(), ErrorCode> {
        let (mut s, mut action) =
            mint_planet_nft(&program(), accounts, id, name.to_string(), uri.to_string());
        loop {
            let outcome = match action {
                Action::MintOne { mint, amount, .. } => {
                    assert_eq!(amount, 1);
                    if self.issued.insert(mint) { Outcome::Done } else { Outcome::Failed(ErrorCode::IssuanceError) }
                }
                Action::AttachMetadata { metadata, .. } => {
                    let r = &s.record;
                    self.records.push((
                        metadata,
                        r.name.clone(),
                        r.symbol.clone(),
                        r.uri.clone(),
                        r.seller_fee_basis_points,
                        r.is_mutable,
                    ));
                    Outcome::Done
                }
                Action::Finish(result) => return result,
            };
            action = s.on_outcome(outcome);
        }
    }
}

fn host() -> Host {
    Host { issued: HashSet::new(), records: Vec::new() }
}

#[test]
fn end_to_end_issues_one_unit_and_one_record() {
    let mut h = host();
    let accounts = accounts_for("planet-42");
    let r = h.run("planet-42", "Kepler-42b", "https://example.com/meta/42.json", accounts);
    assert_eq!(r, Ok(()));
    assert_eq!(h.issued.len(), 1);
    assert!(h.issued.contains(&accounts.mint));
    assert_eq!(h.records.len(), 1);
    let (at, name, symbol, uri, fee, mutable) = h.records[0].clone();
    assert_eq!(at, accounts.metadata);
    assert_eq!(name, "Kepler-42b");
    assert_eq!(symbol, "PLANET");
    assert_eq!(symbol, SYMBOL);
    assert_eq!(uri, "https://example.com/meta/42.json");
    assert_eq!(fee, 0);
    assert!(!mutable);
}

#[test]
fn reused_identifier_is_rejected() {
    let mut h = host();
    let accounts = accounts_for("planet-42");
    assert_eq!(h.run("planet-42", "Kepler-42b", "https://example.com/meta/42.json", accounts), Ok(()));
    let second = h.run("planet-42", "Kepler-42b", "https://example.com/meta/42.json", accounts);
    assert_eq!(second, Err(ErrorCode::IssuanceError));
    assert_eq!(h.issued.len(), 1);
    assert_eq!(h.records.len(), 1);
}

#[test]
fn metadata_address_of_another_mint_is_rejected() {
    let mut h = host();
    let mut accounts = accounts_for("planet-1");
    accounts.metadata = accounts_for("planet-2").metadata;
    let r = h.run("planet-1", "Tau Ceti e", "https://example.com/meta/1.json", accounts);
    assert_eq!(r, Err(ErrorCode::InvalidMetadataAccount));
    assert!(h.records.is_empty());
}

#[test]
fn presented_authority_must_match_derivation() {
    let mut accounts = accounts_for("planet-5");
    accounts.mint_authority = accounts_for("planet-6").mint_authority;
    let (s, action) = mint_planet_nft(&program(), accounts, "planet-5", String::new(), String::new());
    assert_eq!(action, Action::Finish(Err(ErrorCode::AuthorizationError)));
    assert_eq!(s.phase, Phase::Aborted(ErrorCode::AuthorizationError));
}

#[test]
fn presented_mint_must_match_derivation() {
    let mut accounts = accounts_for("planet-5");
    accounts.mint = accounts_for("planet-6").mint;
    let (_, action) = mint_planet_nft(&program(), accounts, "planet-5", String::new(), String::new());
    assert_eq!(action, Action::Finish(Err(ErrorCode::AuthorizationError)));
}

#[test]
fn overlong_identifier_fails_derivation() {
    let id = "p".repeat(33);
    let accounts = accounts_for("planet-5");
    let (s, action) = mint_planet_nft(&program(), accounts, &id, String::new(), String::new());
    assert_eq!(action, Action::Finish(Err(ErrorCode::AddressDerivationFailed)));
    assert_eq!(s.phase, Phase::Aborted(ErrorCode::AddressDerivationFailed));
}

#[test]
fn opening_requests_one_unit_with_proof_seeds() {
    let accounts = accounts_for("planet-42");
    let (s, action) = mint_planet_nft(&program(), accounts, "planet-42", "n".to_string(), "u".to_string());
    assert_eq!(
        action,
        Action::MintOne { mint: accounts.mint, to: accounts.token_account, authority: accounts.mint_authority, amount: 1 }
    );
    let (_, nonce) = derive_authority(b"planet-42", &program()).unwrap();
    assert_eq!(s.signer_seeds, vec![b"mint_authority".to_vec(), b"planet-42".to_vec(), vec![nonce]]);
    assert_eq!(s.registry, metadata_program_id());
    assert!(s.record.creators.is_empty());
    assert!(s.record.update_authority_is_signer);
}

#[test]
fn collaborator_failure_passes_through_and_is_final() {
    let accounts = accounts_for("planet-3");
    let (mut s, _) = mint_planet_nft(&program(), accounts, "planet-3", String::new(), String::new());
    assert_eq!(s.on_outcome(Outcome::Failed(ErrorCode::AuthorizationError)), Action::Finish(Err(ErrorCode::AuthorizationError)));
    assert_eq!(s.on_outcome(Outcome::Done), Action::Finish(Err(ErrorCode::AuthorizationError)));
    assert_eq!(s.phase, Phase::Aborted(ErrorCode::AuthorizationError));
}

#[test]
fn registry_failure_aborts_after_issue() {
    let accounts = accounts_for("planet-4");
    let (mut s, _) = mint_planet_nft(&program(), accounts, "planet-4", String::new(), String::new());
    let next = s.on_outcome(Outcome::Done);
    assert_eq!(
        next,
        Action::AttachMetadata {
            registry: metadata_program_id(),
            metadata: accounts.metadata,
            mint: accounts.mint,
            authority: accounts.mint_authority,
            payer: accounts.payer,
        }
    );
    assert_eq!(s.phase, Phase::Issued);
    assert_eq!(s.on_outcome(Outcome::Failed(ErrorCode::IssuanceError)), Action::Finish(Err(ErrorCode::IssuanceError)));
    assert_eq!(s.phase, Phase::Aborted(ErrorCode::IssuanceError));
}

#[test]
fn finished_issuance_stays_finished() {
    let accounts = accounts_for("planet-8");
    let (mut s, _): (Issuance, Action) = mint_planet_nft(&program(), accounts, "planet-8", String::new(), String::new());
    s.on_outcome(Outcome::Done);
    assert_eq!(s.on_outcome(Outcome::Done), Action::Finish(Ok(())));
    assert_eq!(s.phase, Phase::MetadataAttached);
    assert_eq!(s.on_outcome(Outcome::Failed(ErrorCode::IssuanceError)), Action::Finish(Ok(())));
}
