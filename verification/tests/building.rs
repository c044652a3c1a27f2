//! Compiling plans into real runtime instructions through the
//! collaborator crates' own constructors.

use nft_minter::instructions::create::{create_token, CreateNftTokenArgs};
use nft_minter::instructions::mint::mint_to;
use nft_minter::ix::{compile_plan, compile_request};
use nft_minter::{AccountIn, Key, ProgError};
use solana_program::pubkey::Pubkey;

const METADATA: u8 = 10;
const MINT: u8 = 11;
const AUTHORITY: u8 = 12;
const PAYER: u8 = 13;
const RENT_REF: u8 = 14;
const SYSTEM: u8 = 15;
const MPL: u8 = 16;
const HOLDER: u8 = 20;
const ATA_PROG: u8 = 21;
const EDITION: u8 = 22;
const WALLET: u8 = 23;

fn key(n: u8) -> Key {
    Key { bytes: [n; 32] }
}

fn acct(n: u8) -> AccountIn {
    AccountIn { key: key(n), lamports: 0 }
}

fn token_key() -> Key {
    Key { bytes: spl_token::id().to_bytes() }
}

fn token_acct() -> AccountIn {
    AccountIn { key: token_key(), lamports: 0 }
}

fn sample_args() -> CreateNftTokenArgs {
    CreateNftTokenArgs {
        name: "My Token".to_string(),
        symbol: "TOK".to_string(),
        uri: "https://example.invalid/a.json".to_string(),
    }
}

fn create_accounts(token: AccountIn) -> Vec<AccountIn> {
    vec![
        acct(METADATA),
        acct(MINT),
        acct(AUTHORITY),
        acct(PAYER),
        acct(RENT_REF),
        acct(SYSTEM),
        acct(MPL),
        token,
    ]
}

fn mint_accounts(token: AccountIn) -> Vec<AccountIn> {
    vec![
        acct(HOLDER),
        acct(ATA_PROG),
        acct(EDITION),
        acct(METADATA),
        acct(MINT),
        acct(AUTHORITY),
        acct(PAYER),
        acct(RENT_REF),
        acct(SYSTEM),
        token,
        acct(MPL),
        acct(WALLET),
    ]
}

#[test]
fn compile_create_plan_builds_three_instructions() {
    let plan = create_token(&create_accounts(token_acct()), sample_args(), 1_000_000).unwrap();
    let built = compile_plan(&plan, &key(SYSTEM), &key(RENT_REF), &token_key()).unwrap();
    assert_eq!(built.len(), 3);
    assert_eq!(built[0].program_id, solana_program::system_program::ID);
    // allocation names the payer, then the new mint account
    assert_eq!(built[0].accounts[0].pubkey, Pubkey::new_from_array([PAYER; 32]));
    assert_eq!(built[0].accounts[1].pubkey, Pubkey::new_from_array([MINT; 32]));
    assert_eq!(built[1].program_id, spl_token::id());
    assert_eq!(built[2].program_id, mpl_token_metadata::ID);
}

#[test]
fn compile_mint_plan_builds_the_issuance_instruction() {
    let plan = mint_to(&mint_accounts(token_acct())).unwrap();
    let built = compile_plan(&plan, &key(SYSTEM), &key(RENT_REF), &token_key()).unwrap();
    assert_eq!(built.len(), 3);
    assert_eq!(built[0].program_id, spl_associated_token_account::id());
    assert_eq!(built[1].program_id, spl_token::id());
    // the token program packs its issuance instruction as tag seven
    // followed by the little-endian amount
    assert_eq!(built[1].data[0], 7);
    assert_eq!(&built[1].data[1..9], &1u64.to_le_bytes());
    assert_eq!(built[1].accounts[0].pubkey, Pubkey::new_from_array([MINT; 32]));
    assert_eq!(built[1].accounts[1].pubkey, Pubkey::new_from_array([HOLDER; 32]));
    assert_eq!(built[2].program_id, mpl_token_metadata::ID);
}

#[test]
fn compile_with_wrong_token_program_fails() {
    let wrong = acct(99);
    let plan = create_token(&create_accounts(wrong), sample_args(), 1_000_000).unwrap();
    let r = compile_plan(&plan, &key(SYSTEM), &key(RENT_REF), &key(99));
    assert_eq!(r.err(), Some(ProgError::IncorrectProgramId));
}

fn create_payload(name: &str, symbol: &str, uri: &str) -> Vec<u8> {
    let mut v = vec![0u8];
    for field in [name, symbol, uri] {
        v.extend_from_slice(&(field.len() as u32).to_le_bytes());
        v.extend_from_slice(field.as_bytes());
    }
    v
}

#[test]
fn compile_request_builds_a_create_request() {
    let payload = create_payload("My Token", "TOK", "https://example.invalid/a.json");
    let built = compile_request(&create_accounts(token_acct()), &payload, 1_000_000).unwrap();
    assert_eq!(built.len(), 3);
    assert_eq!(built[0].program_id, solana_program::system_program::ID);
    assert_eq!(built[1].program_id, spl_token::id());
    assert_eq!(built[2].program_id, mpl_token_metadata::ID);
}

#[test]
fn compile_request_builds_a_mint_request() {
    let built = compile_request(&mint_accounts(token_acct()), &[1], 1_000_000).unwrap();
    assert_eq!(built.len(), 3);
    assert_eq!(built[0].program_id, spl_associated_token_account::id());
    assert_eq!(built[1].program_id, spl_token::id());
    assert_eq!(built[2].program_id, mpl_token_metadata::ID);
}

#[test]
fn compile_request_rejects_malformed_payload() {
    let r = compile_request(&create_accounts(token_acct()), &[], 1_000_000);
    assert_eq!(r.err(), Some(ProgError::InvalidInstructionData));
}

#[test]
fn compile_request_rejects_short_account_list() {
    let r = compile_request(&create_accounts(token_acct()), &[1], 1_000_000);
    assert_eq!(r.err(), Some(ProgError::NotEnoughAccountKeys));
}

#[test]
fn compile_request_rejects_wrong_token_program() {
    let payload = create_payload("My Token", "TOK", "https://example.invalid/a.json");
    let r = compile_request(&create_accounts(acct(99)), &payload, 1_000_000);
    assert_eq!(r.err(), Some(ProgError::IncorrectProgramId));
}
