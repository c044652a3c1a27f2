//! The cross-program calls the two handlers issue, as data.
//!
//! A handler turns a validated request into an ordered plan of these
//! actions; each action is one synchronous call into a collaborator
//! subsystem (the generic account allocator, the fungible-token ledger,
//! the associated-account helper, or the metadata program).  The plan
//! is the whole observable behaviour of a handler: the ledger model in
//! `crate::ledger` gives each action its transition semantics.

use vstd::prelude::*;
use crate::Key;

verus! {

/// The byte length of a fungible-ledger mint record, the size the
/// token program documents for its mint account layout.
pub const MINT_RECORD_SPACE: u64 = 82;

/// One cross-program call, with every address and argument it carries.
pub enum CpiAction {
    /// Allocate a fresh account of `space` bytes at `new_account`,
    /// funded with `lamports` from `payer` and owned by `owner`.
    CreateAccount { payer: Key, new_account: Key, lamports: u64, space: u64, owner: Key },
    /// Initialize the allocated account at `mint` as a mint record
    /// with the given decimal precision and both authorities set.
    InitializeMint {
        token_program: Key,
        mint: Key,
        mint_authority: Key,
        freeze_authority: Key,
        decimals: u8,
    },
    /// Create the metadata record at `metadata`, bound to `mint` and
    /// carrying the descriptive fields; the record is marked mutable.
    /// `seller_fee_basis_points` is the royalty share, and the three
    /// flags say whether a creator list, a collection reference or a
    /// usage rule is attached — this system always passes zero and no
    /// attachments.
    CreateMetadata {
        metadata_program: Key,
        metadata: Key,
        mint: Key,
        mint_authority: Key,
        payer: Key,
        update_authority: Key,
        name: String,
        symbol: String,
        uri: String,
        seller_fee_basis_points: u16,
        has_creators: bool,
        has_collection: bool,
        has_uses: bool,
    },
    /// Create the holder account at `holder` for `wallet` and `mint`.
    /// The caller supplies `holder` as the address the associated
    /// account subsystem derives from `wallet` and `mint`.
    CreateHolderAccount { payer: Key, wallet: Key, mint: Key, holder: Key, token_program: Key },
    /// Move `amount` freshly minted units of `mint` into `destination`,
    /// signed by the mint's current minting authority.
    MintTo { token_program: Key, mint: Key, destination: Key, authority: Key, amount: u64 },
    /// Create the master-edition record at `edition` for the pair of
    /// `mint` and `metadata`, capping the edition count at
    /// `max_supply`.  The metadata subsystem defines this call to also
    /// reassign the mint's minting and freeze authorities to the
    /// edition record, which is what locks issuance.
    CreateMasterEdition {
        metadata_program: Key,
        edition: Key,
        mint: Key,
        update_authority: Key,
        mint_authority: Key,
        payer: Key,
        metadata: Key,
        max_supply: u64,
    },
}

/// Ghost image of a `CpiAction`, with addresses as byte sequences and
/// strings as character sequences.
pub ghost enum CpiActionV {
    CreateAccount { payer: Seq<u8>, new_account: Seq<u8>, lamports: u64, space: u64, owner: Seq<u8> },
    InitializeMint {
        token_program: Seq<u8>,
        mint: Seq<u8>,
        mint_authority: Seq<u8>,
        freeze_authority: Seq<u8>,
        decimals: u8,
    },
    CreateMetadata {
        metadata_program: Seq<u8>,
        metadata: Seq<u8>,
        mint: Seq<u8>,
        mint_authority: Seq<u8>,
        payer: Seq<u8>,
        update_authority: Seq<u8>,
        name: Seq<char>,
        symbol: Seq<char>,
        uri: Seq<char>,
        seller_fee_basis_points: u16,
        has_creators: bool,
        has_collection: bool,
        has_uses: bool,
    },
    CreateHolderAccount {
        payer: Seq<u8>,
        wallet: Seq<u8>,
        mint: Seq<u8>,
        holder: Seq<u8>,
        token_program: Seq<u8>,
    },
    MintTo {
        token_program: Seq<u8>,
        mint: Seq<u8>,
        destination: Seq<u8>,
        authority: Seq<u8>,
        amount: u64,
    },
    CreateMasterEdition {
        metadata_program: Seq<u8>,
        edition: Seq<u8>,
        mint: Seq<u8>,
        update_authority: Seq<u8>,
        mint_authority: Seq<u8>,
        payer: Seq<u8>,
        metadata: Seq<u8>,
        max_supply: u64,
    },
}

impl View for CpiAction {
    type V = CpiActionV;

    open spec fn view(&self) -> CpiActionV {
        match self {
            CpiAction::CreateAccount { payer, new_account, lamports, space, owner } => {
                CpiActionV::CreateAccount {
                    payer: payer@,
                    new_account: new_account@,
                    lamports: *lamports,
                    space: *space,
                    owner: owner@,
                }
            },
            CpiAction::InitializeMint {
                token_program,
                mint,
                mint_authority,
                freeze_authority,
                decimals,
            } => {
                CpiActionV::InitializeMint {
                    token_program: token_program@,
                    mint: mint@,
                    mint_authority: mint_authority@,
                    freeze_authority: freeze_authority@,
                    decimals: *decimals,
                }
            },
            CpiAction::CreateMetadata {
                metadata_program,
                metadata,
                mint,
                mint_authority,
                payer,
                update_authority,
                name,
                symbol,
                uri,
                seller_fee_basis_points,
                has_creators,
                has_collection,
                has_uses,
            } => {
                CpiActionV::CreateMetadata {
                    metadata_program: metadata_program@,
                    metadata: metadata@,
                    mint: mint@,
                    mint_authority: mint_authority@,
                    payer: payer@,
                    update_authority: update_authority@,
                    name: name@,
                    symbol: symbol@,
                    uri: uri@,
                    seller_fee_basis_points: *seller_fee_basis_points,
                    has_creators: *has_creators,
                    has_collection: *has_collection,
                    has_uses: *has_uses,
                }
            },
            CpiAction::CreateHolderAccount { payer, wallet, mint, holder, token_program } => {
                CpiActionV::CreateHolderAccount {
                    payer: payer@,
                    wallet: wallet@,
                    mint: mint@,
                    holder: holder@,
                    token_program: token_program@,
                }
            },
            CpiAction::MintTo { token_program, mint, destination, authority, amount } => {
                CpiActionV::MintTo {
                    token_program: token_program@,
                    mint: mint@,
                    destination: destination@,
                    authority: authority@,
                    amount: *amount,
                }
            },
            CpiAction::CreateMasterEdition {
                metadata_program,
                edition,
                mint,
                update_authority,
                mint_authority,
                payer,
                metadata,
                max_supply,
            } => {
                CpiActionV::CreateMasterEdition {
                    metadata_program: metadata_program@,
                    edition: edition@,
                    mint: mint@,
                    update_authority: update_authority@,
                    mint_authority: mint_authority@,
                    payer: payer@,
                    metadata: metadata@,
                    max_supply: *max_supply,
                }
            },
        }
    }
}

/// The ghost images of a plan, action by action.
pub open spec fn plan_view(s: Seq<CpiAction>) -> Seq<CpiActionV> {
    s.map_values(|a: CpiAction| a@)
}

} // verus!
