//! The create handler: plan the calls that establish a new mint record
//! and its metadata record.
//!
//! The account list is positional: metadata address, mint address, mint
//! authority, fee payer, rent reference, account-allocation subsystem,
//! metadata subsystem, fungible-ledger subsystem.  The handler plans
//! three ordered calls: allocate the mint account, initialize it as a
//! zero-decimal mint, then create the metadata record bound to it.

use vstd::prelude::*;
use crate::cpi::{plan_view, CpiAction, CpiActionV, MINT_RECORD_SPACE};
use crate::{accounts_view, AccountIn, AccountInV, ProgError};

verus! {

/// The descriptive fields a create request carries.
#[derive(Debug)]
pub struct CreateNftTokenArgs {
    pub name: String,
    pub symbol: String,
    pub uri: String,
}

/// Ghost image of `CreateNftTokenArgs`.
pub ghost struct ArgsV {
    pub name: Seq<char>,
    pub symbol: Seq<char>,
    pub uri: Seq<char>,
}

impl View for CreateNftTokenArgs {
    type V = ArgsV;

    open spec fn view(&self) -> ArgsV {
        ArgsV { name: self.name@, symbol: self.symbol@, uri: self.uri@ }
    }
}

/// How many accounts the create handler reads, in their fixed order.
pub const CREATE_ACCOUNT_COUNT: usize = 8;

/// The plan of a create request over a supplied account list: allocate
/// the mint account sized and funded for a mint record and owned by the
/// fungible-ledger subsystem, initialize it with zero decimals and both
/// authorities set to the supplied mint authority, then create the
/// metadata record bound to the mint, marked mutable, with the request's
/// descriptive fields, the mint authority as update authority, a zero
/// royalty share and no creator list, collection or usage rule.
pub open spec fn spec_create_plan(accs: Seq<AccountInV>, args: ArgsV, mint_rent: u64) -> Seq<
    CpiActionV,
>
    recommends
        accs.len() >= 8,
{
    seq![
        CpiActionV::CreateAccount {
            payer: accs[3].key,
            new_account: accs[1].key,
            lamports: mint_rent,
            space: MINT_RECORD_SPACE,
            owner: accs[7].key,
        },
        CpiActionV::InitializeMint {
            token_program: accs[7].key,
            mint: accs[1].key,
            mint_authority: accs[2].key,
            freeze_authority: accs[2].key,
            decimals: 0,
        },
        CpiActionV::CreateMetadata {
            metadata_program: accs[6].key,
            metadata: accs[0].key,
            mint: accs[1].key,
            mint_authority: accs[2].key,
            payer: accs[3].key,
            update_authority: accs[2].key,
            name: args.name,
            symbol: args.symbol,
            uri: args.uri,
            seller_fee_basis_points: 0,
            has_creators: false,
            has_collection: false,
            has_uses: false,
        },
    ]
}

/// Plans the create request: exactly the three ordered calls of
/// `spec_create_plan` when enough accounts are supplied, and the
/// account-shape error otherwise.  `mint_rent_lamports` is the
/// minimum balance the account-allocation subsystem requires for a
/// record of `MINT_RECORD_SPACE` bytes, read by the caller from the
/// rent schedule.
pub fn create_token(
    accounts: &Vec<AccountIn>,
    args: CreateNftTokenArgs,
    mint_rent_lamports: u64,
) -> (r: Result<Vec<CpiAction>, ProgError>)
    ensures
        match r {
            Ok(plan) => {
                &&& accounts@.len() >= 8
                &&& plan_view(plan@) == spec_create_plan(
                    accounts_view(accounts@),
                    args@,
                    mint_rent_lamports,
                )
            },
            Err(e) => {
                &&& accounts@.len() < 8
                &&& e == ProgError::NotEnoughAccountKeys
            },
        },
{
    if accounts.len() < CREATE_ACCOUNT_COUNT {
        return Err(ProgError::NotEnoughAccountKeys);
    }
    let metadata = accounts[0].key;
    let mint = accounts[1].key;
    let mint_authority = accounts[2].key;
    let payer = accounts[3].key;
    let token_metadata_program = accounts[6].key;
    let token_program = accounts[7].key;

    let mut plan: Vec<CpiAction> = Vec::new();
    plan.push(
        CpiAction::CreateAccount {
            payer,
            new_account: mint,
            lamports: mint_rent_lamports,
            space: MINT_RECORD_SPACE,
            owner: token_program,
        },
    );
    plan.push(
        CpiAction::InitializeMint {
            token_program,
            mint,
            mint_authority,
            freeze_authority: mint_authority,
            decimals: 0,
        },
    );
    plan.push(
        CpiAction::CreateMetadata {
            metadata_program: token_metadata_program,
            metadata,
            mint,
            mint_authority,
            payer,
            update_authority: mint_authority,
            name: args.name,
            symbol: args.symbol,
            uri: args.uri,
            seller_fee_basis_points: 0,
            has_creators: false,
            has_collection: false,
            has_uses: false,
        },
    );
    proof {
        assert(plan_view(plan@) =~= spec_create_plan(
            accounts_view(accounts@),
            args@,
            mint_rent_lamports,
        ));
    }
    Ok(plan)
}

} // verus!
