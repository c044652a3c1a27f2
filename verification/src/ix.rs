//! Building the real runtime instructions for a plan, through the
//! collaborator crates' own constructors.
//!
//! Each constructor is pure: it turns addresses and arguments into an
//! instruction value, which the hosting runtime later dispatches.  The
//! constructors live in the collaborators' client crates and are
//! called here behind trusted wrappers.  `compile_plan` builds one
//! instruction per action, and `compile_request` runs the whole
//! pipeline — decode, plan, build — for a raw request.

use vstd::prelude::*;
use crate::codec::utf8_len;
use crate::cpi::{plan_view, CpiAction, CpiActionV};
use crate::instructions::create::{create_token, spec_create_plan};
use crate::instructions::mint::{mint_to, spec_mint_plan};
use crate::processor::{parse_instruction, spec_parse, InstructionV, SplNftMinterIntstruction};
use crate::{accounts_view, AccountIn, Key, ProgError};
use solana_program::instruction::Instruction;
use solana_program::pubkey::Pubkey;

verus! {

#[verifier::external_type_specification]
#[verifier::external_body]
pub struct ExPubkey(Pubkey);

#[verifier::external_type_specification]
#[verifier::external_body]
pub struct ExInstruction(Instruction);

/// Whether an address is the fungible-token ledger program's own.
/// Names the check the token crate's instruction constructors make —
/// `check_program_account`, a comparison against `spl_token::id()` —
/// which depends on the address alone.
pub uninterp spec fn is_fungible_ledger_id(k: Seq<u8>) -> bool;

/// Relies on `Pubkey::new_from_array`: the runtime address made of
/// exactly these 32 bytes.
#[verifier::external_body]
fn pk(k: &Key) -> Pubkey {
    Pubkey::new_from_array(k.bytes)
}

/// Relies on `solana_program::system_instruction::create_account`: the
/// account-allocation subsystem's instruction to allocate and fund a
/// fresh account; the constructor itself cannot fail.
#[verifier::external_body]
fn build_create_account(
    payer: &Key,
    new_account: &Key,
    lamports: u64,
    space: u64,
    owner: &Key,
) -> Instruction {
    solana_program::system_instruction::create_account(
        &pk(payer),
        &pk(new_account),
        lamports,
        space,
        &pk(owner),
    )
}

/// Relies on `spl_token::instruction::initialize_mint`: the fungible
/// ledger's mint-initialization instruction.  Its source succeeds
/// exactly when the supplied program address is the token program's
/// own, and otherwise fails with the incorrect-program error; it
/// cannot panic.
#[verifier::external_body]
fn build_initialize_mint(
    token_program: &Key,
    mint: &Key,
    mint_authority: &Key,
    freeze_authority: &Key,
    decimals: u8,
) -> (r: Result<Instruction, ProgError>)
    ensures
        r is Ok <==> is_fungible_ledger_id(token_program@),
        r is Err ==> r->Err_0 == ProgError::IncorrectProgramId,
{
    spl_token::instruction::initialize_mint(
        &pk(token_program),
        &pk(mint),
        &pk(mint_authority),
        Some(&pk(freeze_authority)),
        decimals,
    ).map_err(|_| ProgError::IncorrectProgramId)
}

/// Relies on `spl_token::instruction::mint_to`: the fungible ledger's
/// issuance instruction, signed by the single given authority.  Its
/// source succeeds exactly when the supplied program address is the
/// token program's own, and otherwise fails with the
/// incorrect-program error; it cannot panic.
#[verifier::external_body]
fn build_mint_to(
    token_program: &Key,
    mint: &Key,
    destination: &Key,
    authority: &Key,
    amount: u64,
) -> (r: Result<Instruction, ProgError>)
    ensures
        r is Ok <==> is_fungible_ledger_id(token_program@),
        r is Err ==> r->Err_0 == ProgError::IncorrectProgramId,
{
    spl_token::instruction::mint_to(
        &pk(token_program),
        &pk(mint),
        &pk(destination),
        &pk(authority),
        &[&pk(authority)],
        amount,
    ).map_err(|_| ProgError::IncorrectProgramId)
}

/// Relies on
/// `spl_associated_token_account::instruction::create_associated_token_account`:
/// the associated-account subsystem's creation instruction for the
/// wallet's holder account of the mint; the constructor itself cannot
/// fail.
#[verifier::external_body]
fn build_create_holder(payer: &Key, wallet: &Key, mint: &Key, token_program: &Key) -> Instruction {
    spl_associated_token_account::instruction::create_associated_token_account(
        &pk(payer),
        &pk(wallet),
        &pk(mint),
        &pk(token_program),
    )
}

/// Relies on `mpl_token_metadata::instructions::CreateMetadataAccountV3Builder`:
/// the metadata subsystem's record-creation instruction.  Every
/// account the builder requires is set, and the serialized field
/// lengths are bounded below the four-byte length prefix of the
/// builder's own encoding — each string's UTF-8 byte count is its
/// `utf8_len` — so the call cannot fail or panic.  This system never
/// attaches a creator list, a collection reference or a usage rule,
/// so only that form is built.
#[verifier::external_body]
#[allow(unused_variables)]
fn build_create_metadata(
    metadata: &Key,
    mint: &Key,
    mint_authority: &Key,
    payer: &Key,
    update_authority: &Key,
    system_program: &Key,
    rent: &Key,
    name: &String,
    symbol: &String,
    uri: &String,
    seller_fee_basis_points: u16,
    has_creators: bool,
    has_collection: bool,
    has_uses: bool,
) -> Instruction
    requires
        utf8_len(name@) <= 0xFFFF_FFFF,
        utf8_len(symbol@) <= 0xFFFF_FFFF,
        utf8_len(uri@) <= 0xFFFF_FFFF,
        !has_creators,
        !has_collection,
        !has_uses,
{
    mpl_token_metadata::instructions::CreateMetadataAccountV3Builder::new()
        .metadata(pk(metadata)).mint(pk(mint)).mint_authority(pk(mint_authority))
        .payer(pk(payer)).update_authority(pk(update_authority), true)
        .system_program(pk(system_program)).rent(Some(pk(rent)))
        .data(mpl_token_metadata::types::DataV2 {
            name: name.clone(), symbol: symbol.clone(), uri: uri.clone(),
            seller_fee_basis_points, creators: None, collection: None, uses: None,
        })
        .is_mutable(true).instruction()
}

/// Relies on `mpl_token_metadata::instructions::CreateMasterEditionV3Builder`:
/// the metadata subsystem's edition-creation instruction; every
/// account the builder requires is set and its serialized arguments
/// are of fixed size, so it cannot fail or panic.
#[verifier::external_body]
fn build_create_master_edition(
    edition: &Key,
    mint: &Key,
    update_authority: &Key,
    mint_authority: &Key,
    payer: &Key,
    metadata: &Key,
    token_program: &Key,
    system_program: &Key,
    rent: &Key,
    max_supply: u64,
) -> Instruction {
    mpl_token_metadata::instructions::CreateMasterEditionV3Builder::new()
        .edition(pk(edition)).mint(pk(mint)).update_authority(pk(update_authority))
        .mint_authority(pk(mint_authority)).payer(pk(payer)).metadata(pk(metadata))
        .token_program(pk(token_program)).system_program(pk(system_program))
        .rent(Some(pk(rent))).max_supply(max_supply).instruction()
}

/// Whether an action's instruction can be built at all: the metadata
/// call's string fields must fit the builder's four-byte length
/// prefix, and only the no-attachment form this system plans is
/// built.  Every planned action satisfies this: the planners set no
/// attachments, and the wire format bounds each decoded field by its
/// own four-byte length prefix.
pub open spec fn action_encodable(a: CpiActionV) -> bool {
    match a {
        CpiActionV::CreateMetadata {
            name,
            symbol,
            uri,
            has_creators,
            has_collection,
            has_uses,
            ..
        } => {
            &&& utf8_len(name) <= 0xFFFF_FFFF
            &&& utf8_len(symbol) <= 0xFFFF_FFFF
            &&& utf8_len(uri) <= 0xFFFF_FFFF
            &&& !has_creators
            &&& !has_collection
            &&& !has_uses
        },
        _ => true,
    }
}

/// Whether an action's constructor succeeds: the token ledger's
/// constructors demand their own program address, and every other
/// constructor always succeeds.
pub open spec fn action_compiles(a: CpiActionV) -> bool {
    match a {
        CpiActionV::InitializeMint { token_program, .. } => is_fungible_ledger_id(token_program),
        CpiActionV::MintTo { token_program, .. } => is_fungible_ledger_id(token_program),
        _ => true,
    }
}

/// Builds the runtime instruction of one planned action.  The
/// metadata and edition calls also name the account-allocation
/// subsystem, the rent reference and the token program, which the
/// caller passes from its account list.  Success is exactly
/// `action_compiles`; the only failure is the token constructors'
/// incorrect-program error.
pub fn compile_action(
    action: &CpiAction,
    system_program: &Key,
    rent: &Key,
    token_program: &Key,
) -> (r: Result<Instruction, ProgError>)
    requires
        action_encodable(action@),
    ensures
        r is Ok <==> action_compiles(action@),
        r is Err ==> r->Err_0 == ProgError::IncorrectProgramId,
{
    match action {
        CpiAction::CreateAccount { payer, new_account, lamports, space, owner } => {
            Ok(build_create_account(payer, new_account, *lamports, *space, owner))
        },
        CpiAction::InitializeMint {
            token_program,
            mint,
            mint_authority,
            freeze_authority,
            decimals,
        } => build_initialize_mint(token_program, mint, mint_authority, freeze_authority, *decimals),
        CpiAction::CreateMetadata {
            metadata_program,
            metadata,
            mint,
            mint_authority,
            payer,
            update_authority,
            name,
            symbol,
            uri,
            seller_fee_basis_points,
            has_creators,
            has_collection,
            has_uses,
        } => {
            Ok(
                build_create_metadata(
                    metadata,
                    mint,
                    mint_authority,
                    payer,
                    update_authority,
                    system_program,
                    rent,
                    name,
                    symbol,
                    uri,
                    *seller_fee_basis_points,
                    *has_creators,
                    *has_collection,
                    *has_uses,
                ),
            )
        },
        CpiAction::CreateHolderAccount { payer, wallet, mint, holder, token_program } => {
            Ok(build_create_holder(payer, wallet, mint, token_program))
        },
        CpiAction::MintTo { token_program, mint, destination, authority, amount } => {
            build_mint_to(token_program, mint, destination, authority, *amount)
        },
        CpiAction::CreateMasterEdition {
            metadata_program,
            edition,
            mint,
            update_authority,
            mint_authority,
            payer,
            metadata,
            max_supply,
        } => {
            Ok(
                build_create_master_edition(
                    edition,
                    mint,
                    update_authority,
                    mint_authority,
                    payer,
                    metadata,
                    token_program,
                    system_program,
                    rent,
                    *max_supply,
                ),
            )
        },
    }
}

/// Builds one runtime instruction per planned action, in plan order.
/// Success is exactly every action compiling; the first constructor
/// failure is the whole compilation's failure.
pub fn compile_plan(
    actions: &Vec<CpiAction>,
    system_program: &Key,
    rent: &Key,
    token_program: &Key,
) -> (r: Result<Vec<Instruction>, ProgError>)
    requires
        forall|i: int|
            0 <= i < actions@.len() ==> action_encodable(#[trigger] plan_view(actions@)[i]),
    ensures
        (r is Ok <==> forall|i: int|
            0 <= i < actions@.len() ==> action_compiles(#[trigger] plan_view(actions@)[i])),
        r is Ok ==> r->Ok_0@.len() == actions@.len(),
        r is Err ==> r->Err_0 == ProgError::IncorrectProgramId,
{
    let mut out: Vec<Instruction> = Vec::new();
    let mut i: usize = 0;
    while i < actions.len()
        invariant
            i <= actions@.len(),
            out@.len() == i,
            forall|j: int|
                0 <= j < actions@.len() ==> action_encodable(#[trigger] plan_view(actions@)[j]),
            forall|j: int| 0 <= j < i ==> action_compiles(#[trigger] plan_view(actions@)[j]),
        decreases actions@.len() - i,
    {
        proof {
            assert(action_encodable(plan_view(actions@)[i as int]));
            assert(plan_view(actions@)[i as int] == actions@[i as int]@);
        }
        match compile_action(&actions[i], system_program, rent, token_program) {
            Ok(ins) => out.push(ins),
            Err(e) => {
                assert(!action_compiles(plan_view(actions@)[i as int]));
                return Err(e);
            },
        }
        i += 1;
    }
    Ok(out)
}

/// The whole pipeline for a raw request: decode the payload, plan the
/// matching handler's calls, and build their runtime instructions,
/// reading the account-allocation subsystem, the rent reference and
/// the token program from the positions each request fixes — the
/// sixth, fifth and eighth account of a create request, the ninth,
/// eighth and tenth of a mint request.  A malformed payload fails
/// with the decoding error, a short account list with the
/// account-shape error, and a token-program address that is not the
/// fungible ledger's own with the incorrect-program error.
pub fn compile_request(
    accounts: &Vec<AccountIn>,
    instruction_data: &[u8],
    mint_rent_lamports: u64,
) -> (r: Result<Vec<Instruction>, ProgError>)
    ensures
        match spec_parse(instruction_data@) {
            None => r == Err::<Vec<Instruction>, ProgError>(ProgError::InvalidInstructionData),
            Some(ins) => match ins {
                InstructionV::Create(a) => {
                    if accounts@.len() >= 8 {
                        ({
                            let plan = spec_create_plan(
                                accounts_view(accounts@),
                                a,
                                mint_rent_lamports,
                            );
                            if forall|i: int|
                                0 <= i < plan.len() ==> action_compiles(#[trigger] plan[i]) {
                                r is Ok && r->Ok_0@.len() == plan.len()
                            } else {
                                r == Err::<Vec<Instruction>, ProgError>(
                                    ProgError::IncorrectProgramId,
                                )
                            }
                        })
                    } else {
                        r == Err::<Vec<Instruction>, ProgError>(ProgError::NotEnoughAccountKeys)
                    }
                },
                InstructionV::Mint => {
                    if accounts@.len() >= 12 {
                        ({
                            let plan = spec_mint_plan(accounts_view(accounts@));
                            if forall|i: int|
                                0 <= i < plan.len() ==> action_compiles(#[trigger] plan[i]) {
                                r is Ok && r->Ok_0@.len() == plan.len()
                            } else {
                                r == Err::<Vec<Instruction>, ProgError>(
                                    ProgError::IncorrectProgramId,
                                )
                            }
                        })
                    } else {
                        r == Err::<Vec<Instruction>, ProgError>(ProgError::NotEnoughAccountKeys)
                    }
                },
            },
        },
{
    let instruction = match parse_instruction(instruction_data) {
        Ok(ins) => ins,
        Err(e) => {
            return Err(e);
        },
    };
    match instruction {
        SplNftMinterIntstruction::Create(args) => {
            let ghost a = args@;
            let plan = match create_token(accounts, args, mint_rent_lamports) {
                Ok(p) => p,
                Err(e) => {
                    return Err(e);
                },
            };
            let system_program = accounts[5].key;
            let rent = accounts[4].key;
            let token_program = accounts[7].key;
            proof {
                let pv = plan_view(plan@);
                assert(pv == spec_create_plan(accounts_view(accounts@), a, mint_rent_lamports));
                assert(pv.len() == 3);
                assert forall|i: int|
                    0 <= i < plan@.len() implies action_encodable(
                    #[trigger] plan_view(plan@)[i],
                ) by {
                    if i == 0 {
                        assert(action_encodable(pv[0]));
                    } else if i == 1 {
                        assert(action_encodable(pv[1]));
                    } else {
                        assert(action_encodable(pv[2]));
                    }
                }
            }
            let r = compile_plan(&plan, &system_program, &rent, &token_program);
            proof {
                let pv = plan_view(plan@);
                let sp = spec_create_plan(accounts_view(accounts@), a, mint_rent_lamports);
                assert forall|i: int|
                    0 <= i < sp.len() implies (#[trigger] action_compiles(sp[i]))
                    == action_compiles(pv[i]) by {}
            }
            r
        },
        SplNftMinterIntstruction::Mint => {
            let plan = match mint_to(accounts) {
                Ok(p) => p,
                Err(e) => {
                    return Err(e);
                },
            };
            let system_program = accounts[8].key;
            let rent = accounts[7].key;
            let token_program = accounts[9].key;
            proof {
                let pv = plan_view(plan@);
                assert(pv == spec_mint_plan(accounts_view(accounts@)));
                if accounts_view(accounts@)[0].lamports != 0 {
                    assert(pv.len() == 2);
                } else {
                    assert(pv.len() == 3);
                }
                assert forall|i: int|
                    0 <= i < plan@.len() implies action_encodable(
                    #[trigger] plan_view(plan@)[i],
                ) by {
                    if i == 0 {
                        assert(action_encodable(pv[0]));
                    } else if i == 1 {
                        assert(action_encodable(pv[1]));
                    } else {
                        assert(action_encodable(pv[2]));
                    }
                }
            }
            let r = compile_plan(&plan, &system_program, &rent, &token_program);
            proof {
                let pv = plan_view(plan@);
                let sp = spec_mint_plan(accounts_view(accounts@));
                assert forall|i: int|
                    0 <= i < sp.len() implies (#[trigger] action_compiles(sp[i]))
                    == action_compiles(pv[i]) by {}
            }
            r
        },
    }
}

} // verus!
