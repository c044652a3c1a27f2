//! The ledger model's own checks, driven one call at a time: each
//! failure the collaborators report has an input that produces it.

use nft_minter::cpi::CpiAction;
use nft_minter::ledger::{AccountRecord, Ledger, StepError};
use nft_minter::Key;

const MINT: u8 = 11;
const AUTHORITY: u8 = 12;
const PAYER: u8 = 13;
const TOKEN: u8 = 17;
const HOLDER: u8 = 20;
const EDITION: u8 = 22;
const WALLET: u8 = 23;
const METADATA: u8 = 10;
const MPL: u8 = 16;

fn key(n: u8) -> Key {
    Key { bytes: [n; 32] }
}

fn initialize_mint() -> CpiAction {
    CpiAction::InitializeMint {
        token_program: key(TOKEN),
        mint: key(MINT),
        mint_authority: key(AUTHORITY),
        freeze_authority: key(AUTHORITY),
        decimals: 0,
    }
}

fn mint_to_holder(amount: u64) -> CpiAction {
    CpiAction::MintTo {
        token_program: key(TOKEN),
        mint: key(MINT),
        destination: key(HOLDER),
        authority: key(AUTHORITY),
        amount,
    }
}

fn master_edition() -> CpiAction {
    CpiAction::CreateMasterEdition {
        metadata_program: key(MPL),
        edition: key(EDITION),
        mint: key(MINT),
        update_authority: key(AUTHORITY),
        mint_authority: key(AUTHORITY),
        payer: key(PAYER),
        metadata: key(METADATA),
        max_supply: 1,
    }
}

fn mint_record(supply: u64) -> AccountRecord {
    AccountRecord::Mint {
        decimals: 0,
        supply,
        mint_authority: Some(key(AUTHORITY)),
        freeze_authority: Some(key(AUTHORITY)),
    }
}

#[test]
fn initialize_without_allocation_is_missing() {
    let mut l = Ledger::new();
    assert_eq!(l.apply(&initialize_mint()).err(), Some(StepError::MissingAccount));
}

#[test]
fn initialize_with_wrong_owner_is_refused() {
    let mut l = Ledger::new();
    l.set_record(&key(MINT), AccountRecord::Raw { owner: key(99), space: 82 });
    assert_eq!(l.apply(&initialize_mint()).err(), Some(StepError::OwnerMismatch));
}

#[test]
fn initialize_with_wrong_size_is_refused() {
    let mut l = Ledger::new();
    l.set_record(&key(MINT), AccountRecord::Raw { owner: key(TOKEN), space: 10 });
    assert_eq!(l.apply(&initialize_mint()).err(), Some(StepError::SizeMismatch));
}

#[test]
fn transfer_into_foreign_holder_is_refused() {
    let mut l = Ledger::new();
    l.set_record(&key(MINT), mint_record(0));
    l.set_record(
        &key(HOLDER),
        AccountRecord::Holder { wallet: key(WALLET), mint: key(99), amount: 0 },
    );
    assert_eq!(l.apply(&mint_to_holder(1)).err(), Some(StepError::MintMismatch));
}

#[test]
fn transfer_overflowing_the_balance_is_refused() {
    let mut l = Ledger::new();
    l.set_record(&key(MINT), mint_record(0));
    l.set_record(
        &key(HOLDER),
        AccountRecord::Holder { wallet: key(WALLET), mint: key(MINT), amount: u64::MAX },
    );
    assert_eq!(l.apply(&mint_to_holder(1)).err(), Some(StepError::ArithmeticOverflow));
}

#[test]
fn edition_without_metadata_is_refused() {
    let mut l = Ledger::new();
    l.set_record(&key(MINT), mint_record(1));
    assert_eq!(l.apply(&master_edition()).err(), Some(StepError::MissingMetadata));
}

#[test]
fn edition_before_issuance_is_refused() {
    // supply is still zero: the metadata subsystem requires exactly one
    let mut l = Ledger::new();
    l.set_record(&key(MINT), mint_record(0));
    assert_eq!(l.apply(&master_edition()).err(), Some(StepError::EditionRequirements));
}

#[test]
fn edition_reassigns_both_authorities() {
    let mut l = Ledger::new();
    l.set_record(&key(MINT), mint_record(1));
    l.set_record(
        &key(METADATA),
        AccountRecord::Metadata {
            mint: key(MINT),
            name: "n".to_string(),
            symbol: "s".to_string(),
            uri: "u".to_string(),
            update_authority: key(AUTHORITY),
            is_mutable: true,
            seller_fee_basis_points: 0,
            has_creators: false,
            has_collection: false,
            has_uses: false,
        },
    );
    assert!(l.apply(&master_edition()).is_ok());
    match l.lookup(&key(MINT)) {
        Some(AccountRecord::Mint { mint_authority, freeze_authority, supply, .. }) => {
            assert_eq!(supply, 1);
            assert_eq!(mint_authority.unwrap().bytes, [EDITION; 32]);
            assert_eq!(freeze_authority.unwrap().bytes, [EDITION; 32]);
        }
        _ => panic!("the mint record must survive the edition call"),
    }
    match l.lookup(&key(EDITION)) {
        Some(AccountRecord::Edition { mint, max_supply }) => {
            assert_eq!(mint.bytes, [MINT; 32]);
            assert_eq!(max_supply, 1);
        }
        _ => panic!("the edition record must exist"),
    }
}
