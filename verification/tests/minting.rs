//! The orchestration scenarios: what create establishes, what mint
//! issues and locks, holder-account idempotence, ordering, and the
//! single-edition cap, all run against the ledger model.

use nft_minter::cpi::CpiAction;
use nft_minter::instructions::create::{create_token, CreateNftTokenArgs};
use nft_minter::instructions::mint::mint_to;
use nft_minter::ledger::{AccountRecord, Ledger, StepError};
use nft_minter::processor::process_instruction;
use nft_minter::{AccountIn, Key, ProgError};

const METADATA: u8 = 10;
const MINT: u8 = 11;
const AUTHORITY: u8 = 12;
const PAYER: u8 = 13;
const RENT_REF: u8 = 14;
const SYSTEM: u8 = 15;
const MPL: u8 = 16;
const TOKEN: u8 = 17;
const HOLDER: u8 = 20;
const ATA_PROG: u8 = 21;
const EDITION: u8 = 22;
const WALLET: u8 = 23;

const MINT_RENT: u64 = 1_461_600;

fn key(n: u8) -> Key {
    Key { bytes: [n; 32] }
}

fn acct(n: u8) -> AccountIn {
    AccountIn { key: key(n), lamports: 0 }
}

fn create_accounts() -> Vec<AccountIn> {
    vec![
        acct(METADATA),
        acct(MINT),
        acct(AUTHORITY),
        acct(PAYER),
        acct(RENT_REF),
        acct(SYSTEM),
        acct(MPL),
        acct(TOKEN),
    ]
}

fn mint_accounts(holder_lamports: u64) -> Vec<AccountIn> {
    vec![
        AccountIn { key: key(HOLDER), lamports: holder_lamports },
        acct(ATA_PROG),
        acct(EDITION),
        acct(METADATA),
        acct(MINT),
        acct(AUTHORITY),
        acct(PAYER),
        acct(RENT_REF),
        acct(SYSTEM),
        acct(TOKEN),
        acct(MPL),
        acct(WALLET),
    ]
}

fn sample_args() -> CreateNftTokenArgs {
    CreateNftTokenArgs {
        name: "My Token".to_string(),
        symbol: "TOK".to_string(),
        uri: "https://example.invalid/a.json".to_string(),
    }
}

fn created_ledger() -> Ledger {
    let plan = create_token(&create_accounts(), sample_args(), MINT_RENT).unwrap();
    Ledger::new().run(&plan).unwrap()
}

fn minted_ledger() -> Ledger {
    let plan = mint_to(&mint_accounts(0)).unwrap();
    created_ledger().run(&plan).unwrap()
}

#[test]
fn create_plans_three_ordered_calls() {
    let plan = create_token(&create_accounts(), sample_args(), MINT_RENT).unwrap();
    assert_eq!(plan.len(), 3);
    match &plan[0] {
        CpiAction::CreateAccount { payer, new_account, lamports, space, owner } => {
            assert_eq!(payer.bytes, [PAYER; 32]);
            assert_eq!(new_account.bytes, [MINT; 32]);
            assert_eq!(*lamports, MINT_RENT);
            assert_eq!(*space, 82);
            assert_eq!(owner.bytes, [TOKEN; 32]);
        }
        _ => panic!("the first call allocates the mint account"),
    }
    match &plan[1] {
        CpiAction::InitializeMint { mint, mint_authority, freeze_authority, decimals, .. } => {
            assert_eq!(mint.bytes, [MINT; 32]);
            assert_eq!(mint_authority.bytes, [AUTHORITY; 32]);
            assert_eq!(freeze_authority.bytes, [AUTHORITY; 32]);
            assert_eq!(*decimals, 0);
        }
        _ => panic!("the second call initializes the mint"),
    }
    match &plan[2] {
        CpiAction::CreateMetadata {
            metadata,
            mint,
            update_authority,
            name,
            symbol,
            uri,
            seller_fee_basis_points,
            has_creators,
            has_collection,
            has_uses,
            ..
        } => {
            assert_eq!(metadata.bytes, [METADATA; 32]);
            assert_eq!(mint.bytes, [MINT; 32]);
            assert_eq!(update_authority.bytes, [AUTHORITY; 32]);
            assert_eq!(name, "My Token");
            assert_eq!(symbol, "TOK");
            assert_eq!(uri, "https://example.invalid/a.json");
            assert_eq!(*seller_fee_basis_points, 0);
            assert!(!has_creators && !has_collection && !has_uses);
        }
        _ => panic!("the third call creates the metadata record"),
    }
}

#[test]
fn create_too_few_accounts_fails() {
    let mut accounts = create_accounts();
    accounts.pop();
    assert_eq!(
        create_token(&accounts, sample_args(), MINT_RENT).err(),
        Some(ProgError::NotEnoughAccountKeys)
    );
}

#[test]
fn create_establishes_mint_and_metadata() {
    let after = created_ledger();
    match after.lookup(&key(MINT)) {
        Some(AccountRecord::Mint { decimals, supply, mint_authority, freeze_authority }) => {
            assert_eq!(decimals, 0);
            assert_eq!(supply, 0);
            assert_eq!(mint_authority.unwrap().bytes, [AUTHORITY; 32]);
            assert_eq!(freeze_authority.unwrap().bytes, [AUTHORITY; 32]);
        }
        _ => panic!("the mint record must exist after create"),
    }
    match after.lookup(&key(METADATA)) {
        Some(AccountRecord::Metadata {
            mint,
            name,
            symbol,
            uri,
            update_authority,
            is_mutable,
            seller_fee_basis_points,
            has_creators,
            has_collection,
            has_uses,
        }) => {
            assert_eq!(mint.bytes, [MINT; 32]);
            assert_eq!(name, "My Token");
            assert_eq!(symbol, "TOK");
            assert_eq!(uri, "https://example.invalid/a.json");
            assert_eq!(update_authority.bytes, [AUTHORITY; 32]);
            assert!(is_mutable);
            assert_eq!(seller_fee_basis_points, 0);
            assert!(!has_creators && !has_collection && !has_uses);
        }
        _ => panic!("the metadata record must exist after create"),
    }
}

#[test]
fn create_on_existing_mint_fails() {
    let after = created_ledger();
    let plan = create_token(&create_accounts(), sample_args(), MINT_RENT).unwrap();
    assert_eq!(after.run(&plan).err(), Some(StepError::AccountInUse));
}

#[test]
fn mint_after_create_issues_one_unit_and_locks() {
    let after = minted_ledger();
    match after.lookup(&key(HOLDER)) {
        Some(AccountRecord::Holder { wallet, mint, amount }) => {
            assert_eq!(wallet.bytes, [WALLET; 32]);
            assert_eq!(mint.bytes, [MINT; 32]);
            assert_eq!(amount, 1);
        }
        _ => panic!("the holder account must hold the unit"),
    }
    match after.lookup(&key(MINT)) {
        Some(AccountRecord::Mint { supply, mint_authority, freeze_authority, .. }) => {
            assert_eq!(supply, 1);
            assert_eq!(mint_authority.unwrap().bytes, [EDITION; 32]);
            assert_eq!(freeze_authority.unwrap().bytes, [EDITION; 32]);
        }
        _ => panic!("the mint record must survive the mint"),
    }
    match after.lookup(&key(EDITION)) {
        Some(AccountRecord::Edition { mint, max_supply }) => {
            assert_eq!(mint.bytes, [MINT; 32]);
            assert_eq!(max_supply, 1);
        }
        _ => panic!("the edition record must exist after mint"),
    }
}

#[test]
fn funded_holder_is_not_recreated() {
    // The holder account exists already, at balance zero; its funded
    // balance is nonzero, so the plan must skip creation and still
    // carry the transfer, which succeeds.
    let mut before = created_ledger();
    before.set_record(
        &key(HOLDER),
        AccountRecord::Holder { wallet: key(WALLET), mint: key(MINT), amount: 0 },
    );
    let plan = mint_to(&mint_accounts(1)).unwrap();
    assert_eq!(plan.len(), 2);
    assert!(
        !plan
            .iter()
            .any(|a| matches!(a, CpiAction::CreateHolderAccount { .. }))
    );
    match &plan[0] {
        CpiAction::MintTo { destination, amount, .. } => {
            assert_eq!(destination.bytes, [HOLDER; 32]);
            assert_eq!(*amount, 1);
        }
        _ => panic!("the transfer must still be the first call"),
    }
    let after = before.run(&plan).unwrap();
    match after.lookup(&key(HOLDER)) {
        Some(AccountRecord::Holder { amount, .. }) => assert_eq!(amount, 1),
        _ => panic!("the holder account must hold the unit"),
    }
}

#[test]
fn prefunded_uninitialized_holder_skips_creation() {
    // One lamport sits at the holder address but no holder account was
    // ever initialized there.  The plan takes the balance as proof of
    // existence and skips creation; the transfer is still issued, and
    // the ledger model then fails it, since the record is not a holder
    // account: the existence check is a heuristic, not a structural
    // check.
    let mut before = created_ledger();
    before.set_record(&key(HOLDER), AccountRecord::Funded { lamports: 1 });
    let plan = mint_to(&mint_accounts(1)).unwrap();
    assert!(
        !plan
            .iter()
            .any(|a| matches!(a, CpiAction::CreateHolderAccount { .. }))
    );
    assert!(matches!(plan[0], CpiAction::MintTo { .. }));
    assert_eq!(before.run(&plan).err(), Some(StepError::NotAHolder));
}

#[test]
fn mint_before_create_fails_and_changes_nothing() {
    let before = Ledger::new();
    let plan = mint_to(&mint_accounts(0)).unwrap();
    assert_eq!(before.run(&plan).err(), Some(StepError::NotAMint));
    assert!(before.lookup(&key(HOLDER)).is_none());
    assert!(before.lookup(&key(MINT)).is_none());
}

#[test]
fn second_mint_fails_and_balance_stays_one() {
    let after = minted_ledger();
    let plan = mint_to(&mint_accounts(1)).unwrap();
    assert_eq!(after.run(&plan).err(), Some(StepError::AuthorityMismatch));
    match after.lookup(&key(HOLDER)) {
        Some(AccountRecord::Holder { amount, .. }) => assert_eq!(amount, 1),
        _ => panic!("the holder account must keep its unit"),
    }
}

#[test]
fn dispatch_routes_create() {
    let mut payload = vec![0u8];
    for field in ["My Token", "TOK", "https://example.invalid/a.json"] {
        payload.extend_from_slice(&(field.len() as u32).to_le_bytes());
        payload.extend_from_slice(field.as_bytes());
    }
    let plan = process_instruction(&create_accounts(), &payload, MINT_RENT).unwrap();
    assert_eq!(plan.len(), 3);
    assert!(matches!(plan[0], CpiAction::CreateAccount { .. }));
}

#[test]
fn dispatch_routes_mint() {
    let plan = process_instruction(&mint_accounts(0), &[1], MINT_RENT).unwrap();
    assert_eq!(plan.len(), 3);
    assert!(matches!(plan[0], CpiAction::CreateHolderAccount { .. }));
}

#[test]
fn dispatch_rejects_malformed_payload_before_any_call() {
    let r = process_instruction(&create_accounts(), &[], MINT_RENT);
    assert_eq!(r.err(), Some(ProgError::InvalidInstructionData));
    let r = process_instruction(&create_accounts(), &[7], MINT_RENT);
    assert_eq!(r.err(), Some(ProgError::InvalidInstructionData));
}

#[test]
fn dispatch_rejects_short_account_list() {
    let r = process_instruction(&create_accounts(), &[1], MINT_RENT);
    assert_eq!(r.err(), Some(ProgError::NotEnoughAccountKeys));
}
