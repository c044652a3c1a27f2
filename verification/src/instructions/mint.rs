//! The mint handler: plan the calls that issue the single unit and
//! lock further issuance.
//!
//! The account list is positional: holder token account, associated
//! account subsystem, edition address, metadata address, mint address,
//! mint authority, fee payer, rent reference, account-allocation
//! subsystem, fungible-ledger subsystem, metadata subsystem,
//! destination wallet.  The handler plans the holder account's creation
//! only when its funded balance is zero, then the transfer of exactly
//! one unit, then the master-edition record that caps the edition count
//! at one and, by the metadata subsystem's own definition of that call,
//! moves the mint's authorities to the edition record.

use vstd::prelude::*;
use crate::cpi::{plan_view, CpiAction, CpiActionV};
use crate::{accounts_view, AccountIn, AccountInV, ProgError};

verus! {

/// How many accounts the mint handler reads, in their fixed order.
pub const MINT_ACCOUNT_COUNT: usize = 12;

/// The plan of a mint request over a supplied account list.  The
/// holder account is created only when its funded balance is zero:
/// a nonzero balance is taken as the sign that it already exists, and
/// no creation call is planned.  In either case exactly one unit is
/// then moved into it and the master edition is created with the
/// edition count capped at one.
pub open spec fn spec_mint_plan(accs: Seq<AccountInV>) -> Seq<CpiActionV>
    recommends
        accs.len() >= 12,
{
    let create_holder = CpiActionV::CreateHolderAccount {
        payer: accs[6].key,
        wallet: accs[11].key,
        mint: accs[4].key,
        holder: accs[0].key,
        token_program: accs[9].key,
    };
    let transfer = CpiActionV::MintTo {
        token_program: accs[9].key,
        mint: accs[4].key,
        destination: accs[0].key,
        authority: accs[5].key,
        amount: 1,
    };
    let edition = CpiActionV::CreateMasterEdition {
        metadata_program: accs[10].key,
        edition: accs[2].key,
        mint: accs[4].key,
        update_authority: accs[5].key,
        mint_authority: accs[5].key,
        payer: accs[6].key,
        metadata: accs[3].key,
        max_supply: 1,
    };
    if accs[0].lamports != 0 {
        seq![transfer, edition]
    } else {
        seq![create_holder, transfer, edition]
    }
}

/// Plans the mint request: exactly the ordered calls of
/// `spec_mint_plan` when enough accounts are supplied, and the
/// account-shape error otherwise.
pub fn mint_to(accounts: &Vec<AccountIn>) -> (r: Result<Vec<CpiAction>, ProgError>)
    ensures
        match r {
            Ok(plan) => {
                &&& accounts@.len() >= 12
                &&& plan_view(plan@) == spec_mint_plan(accounts_view(accounts@))
            },
            Err(e) => {
                &&& accounts@.len() < 12
                &&& e == ProgError::NotEnoughAccountKeys
            },
        },
{
    if accounts.len() < MINT_ACCOUNT_COUNT {
        return Err(ProgError::NotEnoughAccountKeys);
    }
    let holder = accounts[0].key;
    let edition = accounts[2].key;
    let metadata = accounts[3].key;
    let mint = accounts[4].key;
    let mint_authority = accounts[5].key;
    let payer = accounts[6].key;
    let token_program = accounts[9].key;
    let token_metadata_program = accounts[10].key;
    let wallet = accounts[11].key;

    let mut plan: Vec<CpiAction> = Vec::new();
    if accounts[0].lamports == 0 {
        plan.push(
            CpiAction::CreateHolderAccount {
                payer,
                wallet,
                mint,
                holder,
                token_program,
            },
        );
    }
    plan.push(
        CpiAction::MintTo {
            token_program,
            mint,
            destination: holder,
            authority: mint_authority,
            amount: 1,
        },
    );
    plan.push(
        CpiAction::CreateMasterEdition {
            metadata_program: token_metadata_program,
            edition,
            mint,
            update_authority: mint_authority,
            mint_authority,
            payer,
            metadata,
            max_supply: 1,
        },
    );
    proof {
        assert(plan_view(plan@) =~= spec_mint_plan(accounts_view(accounts@)));
    }
    Ok(plan)
}

} // verus!
