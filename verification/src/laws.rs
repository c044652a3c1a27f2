//! The orchestration protocol's guarantees, proved against the ledger
//! model: what a successful create establishes, what a successful mint
//! issues and locks, that a funded holder account is never recreated,
//! that minting before creating fails, and that a second mint is shut
//! out by the edition lock.

use vstd::prelude::*;
use crate::cpi::{CpiActionV, MINT_RECORD_SPACE};
use crate::instructions::create::{spec_create_plan, ArgsV};
use crate::instructions::mint::spec_mint_plan;
use crate::ledger::{
    find_rec, lemma_find_store_other, lemma_find_store_same, spec_apply, spec_run, store, EntryV,
    RecordV, StepError,
};
use crate::AccountInV;

verus! {

/// Whether an address currently holds a mint record.
pub open spec fn is_mint_record(o: Option<RecordV>) -> bool {
    o matches Some(RecordV::Mint { .. })
}

/// A create request on fresh mint and metadata addresses succeeds, and
/// afterwards the mint record has zero decimals, zero supply and both
/// authorities equal to the supplied mint authority, while the
/// metadata record carries exactly the request's name, symbol and
/// uri, is bound to the mint, has the mint authority as update
/// authority and is marked mutable.  Every other address is untouched.
pub proof fn lemma_create_establishes_records(
    s: Seq<EntryV>,
    accs: Seq<AccountInV>,
    args: ArgsV,
    mint_rent: u64,
)
    requires
        accs.len() >= 8,
        find_rec(s, accs[1].key) is None,
        find_rec(s, accs[0].key) is None,
        accs[0].key != accs[1].key,
    ensures
        ({
            let r = spec_run(s, spec_create_plan(accs, args, mint_rent));
            &&& r is Ok
            &&& find_rec(r->Ok_0, accs[1].key) == Some(
                RecordV::Mint {
                    decimals: 0,
                    supply: 0,
                    mint_authority: Some(accs[2].key),
                    freeze_authority: Some(accs[2].key),
                },
            )
            &&& find_rec(r->Ok_0, accs[0].key) == Some(
                RecordV::Metadata {
                    mint: accs[1].key,
                    name: args.name,
                    symbol: args.symbol,
                    uri: args.uri,
                    update_authority: accs[2].key,
                    is_mutable: true,
                    seller_fee_basis_points: 0,
                    has_creators: false,
                    has_collection: false,
                    has_uses: false,
                },
            )
            &&& forall|k2: Seq<u8>|
                k2 != accs[0].key && k2 != accs[1].key ==> find_rec(r->Ok_0, k2) == find_rec(
                    s,
                    k2,
                )
        }),
{
    let plan = spec_create_plan(accs, args, mint_rent);
    let metadata = accs[0].key;
    let mint = accs[1].key;
    let authority = accs[2].key;
    let token_program = accs[7].key;

    let raw = RecordV::Raw { owner: token_program, space: MINT_RECORD_SPACE };
    let s1 = store(s, mint, raw);
    assert(plan[0] == CpiActionV::CreateAccount {
        payer: accs[3].key,
        new_account: mint,
        lamports: mint_rent,
        space: MINT_RECORD_SPACE,
        owner: token_program,
    });
    assert(spec_apply(s, plan[0]) == Ok::<Seq<EntryV>, StepError>(s1));
    lemma_find_store_same(s, mint, raw);
    lemma_find_store_other(s, mint, raw, metadata);

    let m0 = RecordV::Mint {
        decimals: 0,
        supply: 0,
        mint_authority: Some(authority),
        freeze_authority: Some(authority),
    };
    let s2 = store(s1, mint, m0);
    assert(spec_apply(s1, plan[1]) == Ok::<Seq<EntryV>, StepError>(s2));
    lemma_find_store_same(s1, mint, m0);
    lemma_find_store_other(s1, mint, m0, metadata);

    let md = RecordV::Metadata {
        mint,
        name: args.name,
        symbol: args.symbol,
        uri: args.uri,
        update_authority: authority,
        is_mutable: true,
        seller_fee_basis_points: 0,
        has_creators: false,
        has_collection: false,
        has_uses: false,
    };
    let s3 = store(s2, metadata, md);
    assert(spec_apply(s2, plan[2]) == Ok::<Seq<EntryV>, StepError>(s3));
    lemma_find_store_same(s2, metadata, md);
    lemma_find_store_other(s2, metadata, md, mint);

    let p1 = plan.drop_first();
    let p2 = p1.drop_first();
    let p3 = p2.drop_first();
    assert(p1[0] == plan[1]);
    assert(p2[0] == plan[2]);
    assert(p3.len() == 0);
    assert(spec_run(s3, p3) == Ok::<Seq<EntryV>, StepError>(s3));
    assert(spec_run(s2, p2) == Ok::<Seq<EntryV>, StepError>(s3));
    assert(spec_run(s1, p1) == Ok::<Seq<EntryV>, StepError>(s3));
    assert(spec_run(s, plan) == Ok::<Seq<EntryV>, StepError>(s3));

    assert forall|k2: Seq<u8>|
        k2 != metadata && k2 != mint implies find_rec(s3, k2) == find_rec(s, k2) by {
        lemma_find_store_other(s, mint, raw, k2);
        lemma_find_store_other(s1, mint, m0, k2);
        lemma_find_store_other(s2, metadata, md, k2);
    }
}

/// A mint request right after a successful create succeeds: the holder
/// account ends with its balance raised by exactly one unit — created
/// at balance zero first when its funded balance was zero, and left
/// alone otherwise — and the mint record's supply is one while both of
/// its authorities have been reassigned to the edition record's
/// address, so they no longer equal the original authority whenever
/// the edition address differs from it.  The edition record carries
/// the cap of one.  Every address other than holder, mint and edition
/// is untouched.
pub proof fn lemma_mint_issues_and_locks(
    s: Seq<EntryV>,
    accs: Seq<AccountInV>,
    held_wallet: Seq<u8>,
    prev_amount: u64,
    md_name: Seq<char>,
    md_symbol: Seq<char>,
    md_uri: Seq<char>,
    md_update: Seq<u8>,
    md_mutable: bool,
    md_fee: u16,
    md_creators: bool,
    md_collection: bool,
    md_uses: bool,
)
    requires
        accs.len() >= 12,
        find_rec(s, accs[4].key) == Some(
            RecordV::Mint {
                decimals: 0,
                supply: 0,
                mint_authority: Some(accs[5].key),
                freeze_authority: Some(accs[5].key),
            },
        ),
        find_rec(s, accs[3].key) == Some(
            RecordV::Metadata {
                mint: accs[4].key,
                name: md_name,
                symbol: md_symbol,
                uri: md_uri,
                update_authority: md_update,
                is_mutable: md_mutable,
                seller_fee_basis_points: md_fee,
                has_creators: md_creators,
                has_collection: md_collection,
                has_uses: md_uses,
            },
        ),
        find_rec(s, accs[2].key) is None,
        accs[0].lamports == 0 ==> find_rec(s, accs[0].key) is None && prev_amount == 0
            && held_wallet == accs[11].key,
        accs[0].lamports != 0 ==> find_rec(s, accs[0].key) == Some(
            RecordV::Holder { wallet: held_wallet, mint: accs[4].key, amount: prev_amount },
        ),
        prev_amount < u64::MAX,
        accs[0].key != accs[2].key,
        accs[0].key != accs[3].key,
        accs[0].key != accs[4].key,
        accs[2].key != accs[3].key,
        accs[2].key != accs[4].key,
        accs[3].key != accs[4].key,
    ensures
        ({
            let r = spec_run(s, spec_mint_plan(accs));
            &&& r is Ok
            &&& find_rec(r->Ok_0, accs[0].key) == Some(
                RecordV::Holder {
                    wallet: held_wallet,
                    mint: accs[4].key,
                    amount: (prev_amount + 1) as u64,
                },
            )
            &&& find_rec(r->Ok_0, accs[4].key) == Some(
                RecordV::Mint {
                    decimals: 0,
                    supply: 1,
                    mint_authority: Some(accs[2].key),
                    freeze_authority: Some(accs[2].key),
                },
            )
            &&& find_rec(r->Ok_0, accs[2].key) == Some(
                RecordV::Edition { mint: accs[4].key, max_supply: 1 },
            )
            &&& accs[2].key != accs[5].key ==> find_rec(r->Ok_0, accs[4].key) != Some(
                RecordV::Mint {
                    decimals: 0,
                    supply: 1,
                    mint_authority: Some(accs[5].key),
                    freeze_authority: Some(accs[5].key),
                },
            )
            &&& forall|k2: Seq<u8>|
                k2 != accs[0].key && k2 != accs[2].key && k2 != accs[4].key ==> find_rec(
                    r->Ok_0,
                    k2,
                ) == find_rec(s, k2)
        }),
{
    let plan = spec_mint_plan(accs);
    let holder = accs[0].key;
    let edition = accs[2].key;
    let metadata = accs[3].key;
    let mint = accs[4].key;
    let authority = accs[5].key;

    // The ledger on which the transfer runs: unchanged when the holder
    // account already exists, else with the holder account created.
    let h0 = RecordV::Holder { wallet: held_wallet, mint, amount: prev_amount };
    let sh = if accs[0].lamports != 0 {
        s
    } else {
        store(s, holder, h0)
    };
    if accs[0].lamports == 0 {
        assert(plan[0] == CpiActionV::CreateHolderAccount {
            payer: accs[6].key,
            wallet: accs[11].key,
            mint,
            holder,
            token_program: accs[9].key,
        });
        assert(spec_apply(s, plan[0]) == Ok::<Seq<EntryV>, StepError>(sh));
        lemma_find_store_same(s, holder, h0);
        lemma_find_store_other(s, holder, h0, mint);
        lemma_find_store_other(s, holder, h0, metadata);
        lemma_find_store_other(s, holder, h0, edition);
    }
    assert(find_rec(sh, holder) == Some(h0));
    assert(find_rec(sh, mint) == find_rec(s, mint));
    assert(find_rec(sh, metadata) == find_rec(s, metadata));
    assert(find_rec(sh, edition) is None);

    let transfer_at: int = if accs[0].lamports != 0 {
        0
    } else {
        1
    };
    assert(plan[transfer_at] == CpiActionV::MintTo {
        token_program: accs[9].key,
        mint,
        destination: holder,
        authority,
        amount: 1,
    });

    let m1 = RecordV::Mint {
        decimals: 0,
        supply: 1,
        mint_authority: Some(authority),
        freeze_authority: Some(authority),
    };
    let h1 = RecordV::Holder { wallet: held_wallet, mint, amount: (prev_amount + 1) as u64 };
    let sm = store(store(sh, mint, m1), holder, h1);
    assert(spec_apply(sh, plan[transfer_at]) == Ok::<Seq<EntryV>, StepError>(sm));
    lemma_find_store_same(sh, mint, m1);
    lemma_find_store_other(sh, mint, m1, holder);
    lemma_find_store_other(sh, mint, m1, metadata);
    lemma_find_store_other(sh, mint, m1, edition);
    lemma_find_store_same(store(sh, mint, m1), holder, h1);
    lemma_find_store_other(store(sh, mint, m1), holder, h1, mint);
    lemma_find_store_other(store(sh, mint, m1), holder, h1, metadata);
    lemma_find_store_other(store(sh, mint, m1), holder, h1, edition);
    assert(find_rec(sm, mint) == Some(m1));
    assert(find_rec(sm, holder) == Some(h1));
    assert(find_rec(sm, metadata) == find_rec(s, metadata));
    assert(find_rec(sm, edition) is None);

    assert(plan[transfer_at + 1] == CpiActionV::CreateMasterEdition {
        metadata_program: accs[10].key,
        edition,
        mint,
        update_authority: authority,
        mint_authority: authority,
        payer: accs[6].key,
        metadata,
        max_supply: 1,
    });
    let ed = RecordV::Edition { mint, max_supply: 1 };
    let m2 = RecordV::Mint {
        decimals: 0,
        supply: 1,
        mint_authority: Some(edition),
        freeze_authority: Some(edition),
    };
    let se = store(store(sm, edition, ed), mint, m2);
    assert(spec_apply(sm, plan[transfer_at + 1]) == Ok::<Seq<EntryV>, StepError>(se));
    lemma_find_store_same(sm, edition, ed);
    lemma_find_store_other(sm, edition, ed, mint);
    lemma_find_store_other(sm, edition, ed, holder);
    lemma_find_store_same(store(sm, edition, ed), mint, m2);
    lemma_find_store_other(store(sm, edition, ed), mint, m2, edition);
    lemma_find_store_other(store(sm, edition, ed), mint, m2, holder);
    assert(find_rec(se, mint) == Some(m2));
    assert(find_rec(se, holder) == Some(h1));
    assert(find_rec(se, edition) == Some(ed));

    // Chain the two or three steps into the whole run.
    if accs[0].lamports != 0 {
        let p1 = plan.drop_first();
        let p2 = p1.drop_first();
        assert(p1[0] == plan[1]);
        assert(p2.len() == 0);
        assert(spec_run(se, p2) == Ok::<Seq<EntryV>, StepError>(se));
        assert(spec_run(sm, p1) == Ok::<Seq<EntryV>, StepError>(se));
        assert(spec_run(s, plan) == Ok::<Seq<EntryV>, StepError>(se));
    } else {
        let p1 = plan.drop_first();
        let p2 = p1.drop_first();
        let p3 = p2.drop_first();
        assert(p1[0] == plan[1]);
        assert(p2[0] == plan[2]);
        assert(p3.len() == 0);
        assert(spec_run(se, p3) == Ok::<Seq<EntryV>, StepError>(se));
        assert(spec_run(sm, p2) == Ok::<Seq<EntryV>, StepError>(se));
        assert(spec_run(sh, p1) == Ok::<Seq<EntryV>, StepError>(se));
        assert(spec_run(s, plan) == Ok::<Seq<EntryV>, StepError>(se));
    }

    assert forall|k2: Seq<u8>|
        k2 != holder && k2 != edition && k2 != mint implies find_rec(se, k2) == find_rec(
        s,
        k2,
    ) by {
        if accs[0].lamports == 0 {
            lemma_find_store_other(s, holder, h0, k2);
        }
        lemma_find_store_other(sh, mint, m1, k2);
        lemma_find_store_other(store(sh, mint, m1), holder, h1, k2);
        lemma_find_store_other(sm, edition, ed, k2);
        lemma_find_store_other(store(sm, edition, ed), mint, m2, k2);
    }
}

/// When the holder account's funded balance is nonzero, the planned
/// mint request contains no holder-account creation at all — only the
/// transfer of the single unit and the edition call, in that order.
pub proof fn lemma_funded_holder_skips_creation(accs: Seq<AccountInV>)
    requires
        accs.len() >= 12,
        accs[0].lamports != 0,
    ensures
        spec_mint_plan(accs).len() == 2,
        (forall|i: int|
            0 <= i < spec_mint_plan(accs).len() ==> !(#[trigger] spec_mint_plan(accs)[i] matches
            CpiActionV::CreateHolderAccount { .. })),
        spec_mint_plan(accs)[0] == (CpiActionV::MintTo {
            token_program: accs[9].key,
            mint: accs[4].key,
            destination: accs[0].key,
            authority: accs[5].key,
            amount: 1,
        }),
        (spec_mint_plan(accs)[1] matches CpiActionV::CreateMasterEdition { max_supply, .. }
            && max_supply == 1),
{
    let plan = spec_mint_plan(accs);
    assert(plan.len() == 2);
    assert(!(plan[0] matches CpiActionV::CreateHolderAccount { .. }));
    assert(!(plan[1] matches CpiActionV::CreateHolderAccount { .. }));
}

/// A mint request against an address that holds no mint record — in
/// particular, one on which no create request ever succeeded — fails,
/// whatever else the ledger holds, and whichever branch the holder
/// check takes.
pub proof fn lemma_mint_before_create_fails(s: Seq<EntryV>, accs: Seq<AccountInV>)
    requires
        accs.len() >= 12,
        !is_mint_record(find_rec(s, accs[4].key)),
    ensures
        spec_run(s, spec_mint_plan(accs)) == Err::<Seq<EntryV>, StepError>(StepError::NotAMint),
{
    let plan = spec_mint_plan(accs);
    assert(spec_apply(s, plan[0]) == Err::<Seq<EntryV>, StepError>(StepError::NotAMint));
}

/// Once the mint's minting authority is no longer the supplied
/// authority — as after a successful mint, which hands it to the
/// edition record — a further mint request fails at the transfer with
/// an authority mismatch, and no balance changes.
pub proof fn lemma_second_mint_fails(
    s: Seq<EntryV>,
    accs: Seq<AccountInV>,
    d: u8,
    sup: u64,
    ma: Option<Seq<u8>>,
    fa: Option<Seq<u8>>,
)
    requires
        accs.len() >= 12,
        accs[0].lamports != 0,
        find_rec(s, accs[4].key) == Some(
            RecordV::Mint { decimals: d, supply: sup, mint_authority: ma, freeze_authority: fa },
        ),
        ma != Some(accs[5].key),
    ensures
        spec_run(s, spec_mint_plan(accs)) == Err::<Seq<EntryV>, StepError>(
            StepError::AuthorityMismatch,
        ),
{
    let plan = spec_mint_plan(accs);
    assert(plan[0] == CpiActionV::MintTo {
        token_program: accs[9].key,
        mint: accs[4].key,
        destination: accs[0].key,
        authority: accs[5].key,
        amount: 1,
    });
    assert(spec_apply(s, plan[0]) == Err::<Seq<EntryV>, StepError>(StepError::AuthorityMismatch));
}

/// The whole lifecycle, composed: on a ledger where the metadata,
/// mint, holder and edition addresses are all absent, a create
/// request followed by a mint request on the same mint succeeds;
/// afterwards the holder account holds exactly one unit and both of
/// the mint's authorities are the edition record's address.  A
/// further mint request, now finding a funded holder account, fails
/// with the authority mismatch: issuance is locked for good.
pub proof fn lemma_lifecycle_create_mint_lock(
    s: Seq<EntryV>,
    ca: Seq<AccountInV>,
    ma: Seq<AccountInV>,
    ma2: Seq<AccountInV>,
    args: ArgsV,
    mint_rent: u64,
)
    requires
        ca.len() >= 8,
        ma.len() >= 12,
        ma[3].key == ca[0].key,
        ma[4].key == ca[1].key,
        ma[5].key == ca[2].key,
        ma[0].lamports == 0,
        find_rec(s, ca[0].key) is None,
        find_rec(s, ca[1].key) is None,
        find_rec(s, ma[0].key) is None,
        find_rec(s, ma[2].key) is None,
        ca[0].key != ca[1].key,
        ma[0].key != ma[2].key,
        ma[0].key != ma[3].key,
        ma[0].key != ma[4].key,
        ma[2].key != ma[3].key,
        ma[2].key != ma[4].key,
        ma[2].key != ma[5].key,
        ma2.len() >= 12,
        ma2[0].key == ma[0].key,
        ma2[0].lamports != 0,
        ma2[4].key == ma[4].key,
        ma2[5].key == ma[5].key,
    ensures
        ({
            let r1 = spec_run(s, spec_create_plan(ca, args, mint_rent));
            &&& r1 is Ok
            &&& ({
                let r2 = spec_run(r1->Ok_0, spec_mint_plan(ma));
                &&& r2 is Ok
                &&& find_rec(r2->Ok_0, ma[0].key) == Some(
                    RecordV::Holder { wallet: ma[11].key, mint: ma[4].key, amount: 1 },
                )
                &&& find_rec(r2->Ok_0, ma[4].key) == Some(
                    RecordV::Mint {
                        decimals: 0,
                        supply: 1,
                        mint_authority: Some(ma[2].key),
                        freeze_authority: Some(ma[2].key),
                    },
                )
                &&& spec_run(r2->Ok_0, spec_mint_plan(ma2)) == Err::<Seq<EntryV>, StepError>(
                    StepError::AuthorityMismatch,
                )
            })
        }),
{
    lemma_create_establishes_records(s, ca, args, mint_rent);
    let l1 = spec_run(s, spec_create_plan(ca, args, mint_rent))->Ok_0;
    assert(find_rec(l1, ma[0].key) is None);
    assert(find_rec(l1, ma[2].key) is None);
    lemma_mint_issues_and_locks(
        l1,
        ma,
        ma[11].key,
        0,
        args.name,
        args.symbol,
        args.uri,
        ca[2].key,
        true,
        0,
        false,
        false,
        false,
    );
    let l2 = spec_run(l1, spec_mint_plan(ma))->Ok_0;
    lemma_second_mint_fails(l2, ma2, 0, 1, Some(ma[2].key), Some(ma[2].key));
}

} // verus!
