//! The dispatcher: decode the opaque request payload and route it to
//! the matching handler.

use vstd::prelude::*;
use crate::codec::{field_chars, field_end, field_ok, read_str, utf8_len};
use crate::cpi::{plan_view, CpiAction};
use crate::instructions::create::{create_token, spec_create_plan, ArgsV, CreateNftTokenArgs};
use crate::instructions::mint::{mint_to, spec_mint_plan};
use crate::{accounts_view, AccountIn, ProgError};

verus! {

/// A decoded request: establish a new asset, or issue its single unit.
#[derive(Debug)]
pub enum SplNftMinterIntstruction {
    Create(CreateNftTokenArgs),
    Mint,
}

/// Ghost image of a decoded request.
pub ghost enum InstructionV {
    Create(ArgsV),
    Mint,
}

impl View for SplNftMinterIntstruction {
    type V = InstructionV;

    open spec fn view(&self) -> InstructionV {
        match self {
            SplNftMinterIntstruction::Create(args) => InstructionV::Create(args@),
            SplNftMinterIntstruction::Mint => InstructionV::Mint,
        }
    }
}

/// What a request payload decodes to, if anything.  A create request
/// is the discriminant byte zero followed by three length-prefixed
/// UTF-8 fields that together consume the payload exactly; a mint
/// request is the single discriminant byte one.  Every other payload
/// is malformed.
pub open spec fn spec_parse(data: Seq<u8>) -> Option<InstructionV> {
    if data.len() == 0 {
        None
    } else if data[0] == 1 {
        if data.len() == 1 {
            Some(InstructionV::Mint)
        } else {
            None
        }
    } else if data[0] == 0 {
        if field_ok(data, 1) {
            let i2 = field_end(data, 1);
            if field_ok(data, i2) {
                let i3 = field_end(data, i2);
                if field_ok(data, i3) && field_end(data, i3) == data.len() {
                    Some(
                        InstructionV::Create(
                            ArgsV {
                                name: field_chars(data, 1),
                                symbol: field_chars(data, i2),
                                uri: field_chars(data, i3),
                            },
                        ),
                    )
                } else {
                    None
                }
            } else {
                None
            }
        } else {
            None
        }
    } else {
        None
    }
}

/// Whether a decoded request's fields fit the four-byte length prefix
/// of the metadata subsystem's own encoding.  Every decoded create
/// request does: each field comes off the wire under a four-byte
/// length prefix of its own, which bounds its UTF-8 byte count.
pub open spec fn args_fit(i: InstructionV) -> bool {
    match i {
        InstructionV::Create(a) => {
            &&& utf8_len(a.name) <= 0xFFFF_FFFF
            &&& utf8_len(a.symbol) <= 0xFFFF_FFFF
            &&& utf8_len(a.uri) <= 0xFFFF_FFFF
        },
        InstructionV::Mint => true,
    }
}

/// Decodes a request payload, returning exactly the value of
/// `spec_parse` and failing with the decoding error on every payload
/// that `spec_parse` rejects.
pub fn parse_instruction(data: &[u8]) -> (r: Result<SplNftMinterIntstruction, ProgError>)
    ensures
        match r {
            Ok(ins) => spec_parse(data@) == Some(ins@) && args_fit(ins@),
            Err(e) => {
                &&& spec_parse(data@) is None
                &&& e == ProgError::InvalidInstructionData
            },
        },
{
    if data.len() == 0 {
        return Err(ProgError::InvalidInstructionData);
    }
    let tag = data[0];
    if tag == 1 {
        if data.len() == 1 {
            Ok(SplNftMinterIntstruction::Mint)
        } else {
            Err(ProgError::InvalidInstructionData)
        }
    } else if tag == 0 {
        let (name, i2) = match read_str(data, 1) {
            Ok(p) => p,
            Err(e) => {
                return Err(e);
            },
        };
        let (symbol, i3) = match read_str(data, i2) {
            Ok(p) => p,
            Err(e) => {
                return Err(e);
            },
        };
        let (uri, i4) = match read_str(data, i3) {
            Ok(p) => p,
            Err(e) => {
                return Err(e);
            },
        };
        if i4 == data.len() {
            Ok(
                SplNftMinterIntstruction::Create(
                    CreateNftTokenArgs { name, symbol, uri },
                ),
            )
        } else {
            Err(ProgError::InvalidInstructionData)
        }
    } else {
        Err(ProgError::InvalidInstructionData)
    }
}

/// Decodes the payload and routes to the matching handler: a malformed
/// payload fails with the decoding error before any account is read,
/// and an accepted request yields exactly the plan of its handler.
/// `mint_rent_lamports` is the minimum balance required for a mint
/// record, read by the caller from the rent schedule.
pub fn process_instruction(
    accounts: &Vec<AccountIn>,
    instruction_data: &[u8],
    mint_rent_lamports: u64,
) -> (r: Result<Vec<CpiAction>, ProgError>)
    ensures
        match spec_parse(instruction_data@) {
            None => r == Err::<Vec<CpiAction>, ProgError>(ProgError::InvalidInstructionData),
            Some(ins) => match ins {
                InstructionV::Create(a) => {
                    if accounts@.len() >= 8 {
                        &&& r is Ok
                        &&& plan_view(r->Ok_0@) == spec_create_plan(
                            accounts_view(accounts@),
                            a,
                            mint_rent_lamports,
                        )
                    } else {
                        r == Err::<Vec<CpiAction>, ProgError>(ProgError::NotEnoughAccountKeys)
                    }
                },
                InstructionV::Mint => {
                    if accounts@.len() >= 12 {
                        &&& r is Ok
                        &&& plan_view(r->Ok_0@) == spec_mint_plan(accounts_view(accounts@))
                    } else {
                        r == Err::<Vec<CpiAction>, ProgError>(ProgError::NotEnoughAccountKeys)
                    }
                },
            },
        },
{
    let instruction = match parse_instruction(instruction_data) {
        Ok(ins) => ins,
        Err(e) => {
            return Err(e);
        },
    };
    match instruction {
        SplNftMinterIntstruction::Create(args) => {
            create_token(accounts, args, mint_rent_lamports)
        },
        SplNftMinterIntstruction::Mint => mint_to(accounts),
    }
}

} // verus!
