//! A model of the hosting ledger and of the collaborator subsystems
//! the handlers call into.
//!
//! The handlers themselves only plan cross-program calls; what each
//! call does to the ledger is defined here, as the documented behaviour
//! of the collaborator that serves it: the generic account allocator,
//! the fungible-token ledger, the associated-account helper and the
//! metadata subsystem.  `spec_apply` is that transition relation, and
//! `Ledger::run` executes a whole plan against it atomically: either
//! every action succeeds in order, or the ledger is left untouched, as
//! the hosting runtime's all-or-nothing transaction semantics demand.
//!
//! The model abstracts from two things the collaborators handle
//! internally: address derivation (a supplied holder address is taken
//! to be the one derived from its wallet and mint) and rent funding of
//! the records the collaborators allocate themselves.

use vstd::prelude::*;
use crate::cpi::{plan_view, CpiAction, CpiActionV, MINT_RECORD_SPACE};
use crate::Key;

verus! {

/// The state of one ledger address.  An address without an entry is
/// absent; `Funded` is an address that merely holds lamports, with no
/// record initialized at it.
pub enum AccountRecord {
    /// Lamports only, no allocated record.
    Funded { lamports: u64 },
    /// Allocated and owned, not yet initialized as anything.
    Raw { owner: Key, space: u64 },
    /// A mint record of the fungible-token ledger.  `None` as an
    /// authority means that authority is gone for good.
    Mint { decimals: u8, supply: u64, mint_authority: Option<Key>, freeze_authority: Option<Key> },
    /// A holder (associated token) account: the balance of `wallet`
    /// for `mint`.
    Holder { wallet: Key, mint: Key, amount: u64 },
    /// The descriptive record of the metadata subsystem, with its
    /// royalty share and whether a creator list, a collection
    /// reference or a usage rule is attached.
    Metadata {
        mint: Key,
        name: String,
        symbol: String,
        uri: String,
        update_authority: Key,
        is_mutable: bool,
        seller_fee_basis_points: u16,
        has_creators: bool,
        has_collection: bool,
        has_uses: bool,
    },
    /// The supply-cap marker of the metadata subsystem.
    Edition { mint: Key, max_supply: u64 },
}

/// Ghost image of an `AccountRecord`.
pub ghost enum RecordV {
    Funded { lamports: u64 },
    Raw { owner: Seq<u8>, space: u64 },
    Mint {
        decimals: u8,
        supply: u64,
        mint_authority: Option<Seq<u8>>,
        freeze_authority: Option<Seq<u8>>,
    },
    Holder { wallet: Seq<u8>, mint: Seq<u8>, amount: u64 },
    Metadata {
        mint: Seq<u8>,
        name: Seq<char>,
        symbol: Seq<char>,
        uri: Seq<char>,
        update_authority: Seq<u8>,
        is_mutable: bool,
        seller_fee_basis_points: u16,
        has_creators: bool,
        has_collection: bool,
        has_uses: bool,
    },
    Edition { mint: Seq<u8>, max_supply: u64 },
}

/// The ghost image of an optional authority key.
pub open spec fn opt_key_view(o: Option<Key>) -> Option<Seq<u8>> {
    match o {
        Some(k) => Some(k@),
        None => None,
    }
}

impl View for AccountRecord {
    type V = RecordV;

    open spec fn view(&self) -> RecordV {
        match self {
            AccountRecord::Funded { lamports } => RecordV::Funded { lamports: *lamports },
            AccountRecord::Raw { owner, space } => RecordV::Raw { owner: owner@, space: *space },
            AccountRecord::Mint { decimals, supply, mint_authority, freeze_authority } => {
                RecordV::Mint {
                    decimals: *decimals,
                    supply: *supply,
                    mint_authority: opt_key_view(*mint_authority),
                    freeze_authority: opt_key_view(*freeze_authority),
                }
            },
            AccountRecord::Holder { wallet, mint, amount } => {
                RecordV::Holder { wallet: wallet@, mint: mint@, amount: *amount }
            },
            AccountRecord::Metadata {
                mint,
                name,
                symbol,
                uri,
                update_authority,
                is_mutable,
                seller_fee_basis_points,
                has_creators,
                has_collection,
                has_uses,
            } => {
                RecordV::Metadata {
                    mint: mint@,
                    name: name@,
                    symbol: symbol@,
                    uri: uri@,
                    update_authority: update_authority@,
                    is_mutable: *is_mutable,
                    seller_fee_basis_points: *seller_fee_basis_points,
                    has_creators: *has_creators,
                    has_collection: *has_collection,
                    has_uses: *has_uses,
                }
            },
            AccountRecord::Edition { mint, max_supply } => {
                RecordV::Edition { mint: mint@, max_supply: *max_supply }
            },
        }
    }
}

/// One address with its record.
pub struct LedgerEntry {
    pub key: Key,
    pub record: AccountRecord,
}

/// Ghost image of a `LedgerEntry`.
pub ghost struct EntryV {
    pub key: Seq<u8>,
    pub record: RecordV,
}

impl View for LedgerEntry {
    type V = EntryV;

    open spec fn view(&self) -> EntryV {
        EntryV { key: self.key@, record: self.record@ }
    }
}

/// The record stored at address `k`, reading entries in order.
pub open spec fn find_rec(s: Seq<EntryV>, k: Seq<u8>) -> Option<RecordV>
    decreases s.len(),
{
    if s.len() == 0 {
        None
    } else if s[0].key == k {
        Some(s[0].record)
    } else {
        find_rec(s.drop_first(), k)
    }
}

/// The ledger with the record at address `k` replaced, or appended if
/// the address had no entry.
pub open spec fn store(s: Seq<EntryV>, k: Seq<u8>, r: RecordV) -> Seq<EntryV>
    decreases s.len(),
{
    if s.len() == 0 {
        seq![EntryV { key: k, record: r }]
    } else if s[0].key == k {
        seq![EntryV { key: k, record: r }] + s.drop_first()
    } else {
        seq![s[0]] + store(s.drop_first(), k, r)
    }
}

/// Why a cross-program call failed, following the collaborators' own
/// checks: a missing or colliding record, a wrong owner or size, an
/// authority that does not match, a record bound to another mint, the
/// metadata subsystem's requirements for an edition, or arithmetic
/// overflow on a balance.
#[derive(Clone, Copy, Debug, PartialEq, Eq, Structural)]
pub enum StepError {
    MissingAccount,
    AccountInUse,
    OwnerMismatch,
    SizeMismatch,
    NotAMint,
    NotAHolder,
    MintMismatch,
    AuthorityMismatch,
    MissingMetadata,
    EditionRequirements,
    ArithmeticOverflow,
}

/// The transition one cross-program call makes on the ledger, as the
/// collaborator serving it defines the call.
///
/// - Account allocation fails on any address already in use, funded or
///   allocated, and otherwise leaves a raw record of the given size
///   owned by the given subsystem.
/// - Mint initialization requires the raw record, with the right owner
///   and the mint record's size, and sets supply zero and both
///   authorities.
/// - Metadata creation requires the referenced mint to exist, signed
///   by its minting authority, and a free metadata address; the record
///   is created mutable.
/// - Holder creation requires the mint to exist and the holder address
///   to be free or merely funded; the account starts at balance zero.
/// - Minting requires the signing authority to be the mint's current
///   minting authority and the destination to be a holder account of
///   that same mint; supply and balance grow by the amount.
/// - Master-edition creation requires the mint, signed by its minting
///   authority, with zero decimals and supply exactly one, the
///   metadata record of that mint, and a free edition address.  It
///   writes the edition record and reassigns both of the mint's
///   authorities to the edition address: this is the revocation that
///   caps issuance, a documented side effect of the call.
pub open spec fn spec_apply(s: Seq<EntryV>, a: CpiActionV) -> Result<Seq<EntryV>, StepError> {
    match a {
        CpiActionV::CreateAccount { payer, new_account, lamports, space, owner } => {
            if find_rec(s, new_account) is Some {
                Err(StepError::AccountInUse)
            } else {
                Ok(store(s, new_account, RecordV::Raw { owner, space }))
            }
        },
        CpiActionV::InitializeMint {
            token_program,
            mint,
            mint_authority,
            freeze_authority,
            decimals,
        } => {
            match find_rec(s, mint) {
                Some(RecordV::Raw { owner, space }) => {
                    if owner != token_program {
                        Err(StepError::OwnerMismatch)
                    } else if space != MINT_RECORD_SPACE {
                        Err(StepError::SizeMismatch)
                    } else {
                        Ok(
                            store(
                                s,
                                mint,
                                RecordV::Mint {
                                    decimals,
                                    supply: 0,
                                    mint_authority: Some(mint_authority),
                                    freeze_authority: Some(freeze_authority),
                                },
                            ),
                        )
                    }
                },
                Some(_) => Err(StepError::AccountInUse),
                None => Err(StepError::MissingAccount),
            }
        },
        CpiActionV::CreateMetadata {
            metadata_program,
            metadata,
            mint,
            mint_authority,
            payer,
            update_authority,
            name,
            symbol,
            uri,
            seller_fee_basis_points,
            has_creators,
            has_collection,
            has_uses,
        } => {
            match find_rec(s, mint) {
                Some(RecordV::Mint { decimals, supply, mint_authority: ma, freeze_authority }) => {
                    if ma != Some(mint_authority) {
                        Err(StepError::AuthorityMismatch)
                    } else if find_rec(s, metadata) is Some {
                        Err(StepError::AccountInUse)
                    } else {
                        Ok(
                            store(
                                s,
                                metadata,
                                RecordV::Metadata {
                                    mint,
                                    name,
                                    symbol,
                                    uri,
                                    update_authority,
                                    is_mutable: true,
                                    seller_fee_basis_points,
                                    has_creators,
                                    has_collection,
                                    has_uses,
                                },
                            ),
                        )
                    }
                },
                _ => Err(StepError::NotAMint),
            }
        },
        CpiActionV::CreateHolderAccount { payer, wallet, mint, holder, token_program } => {
            match find_rec(s, mint) {
                Some(RecordV::Mint { .. }) => {
                    match find_rec(s, holder) {
                        None => Ok(store(s, holder, RecordV::Holder { wallet, mint, amount: 0 })),
                        Some(RecordV::Funded { lamports }) => {
                            Ok(store(s, holder, RecordV::Holder { wallet, mint, amount: 0 }))
                        },
                        Some(_) => Err(StepError::AccountInUse),
                    }
                },
                _ => Err(StepError::NotAMint),
            }
        },
        CpiActionV::MintTo { token_program, mint, destination, authority, amount } => {
            match find_rec(s, mint) {
                Some(RecordV::Mint { decimals, supply, mint_authority, freeze_authority }) => {
                    if mint_authority != Some(authority) {
                        Err(StepError::AuthorityMismatch)
                    } else {
                        match find_rec(s, destination) {
                            Some(RecordV::Holder { wallet, mint: held_mint, amount: balance }) => {
                                if held_mint != mint {
                                    Err(StepError::MintMismatch)
                                } else if supply + amount > u64::MAX || balance + amount
                                    > u64::MAX {
                                    Err(StepError::ArithmeticOverflow)
                                } else {
                                    Ok(
                                        store(
                                            store(
                                                s,
                                                mint,
                                                RecordV::Mint {
                                                    decimals,
                                                    supply: (supply + amount) as u64,
                                                    mint_authority,
                                                    freeze_authority,
                                                },
                                            ),
                                            destination,
                                            RecordV::Holder {
                                                wallet,
                                                mint: held_mint,
                                                amount: (balance + amount) as u64,
                                            },
                                        ),
                                    )
                                }
                            },
                            _ => Err(StepError::NotAHolder),
                        }
                    }
                },
                _ => Err(StepError::NotAMint),
            }
        },
        CpiActionV::CreateMasterEdition {
            metadata_program,
            edition,
            mint,
            update_authority,
            mint_authority,
            payer,
            metadata,
            max_supply,
        } => {
            match find_rec(s, mint) {
                Some(RecordV::Mint { decimals, supply, mint_authority: ma, freeze_authority }) => {
                    if ma != Some(mint_authority) {
                        Err(StepError::AuthorityMismatch)
                    } else if decimals != 0 || supply != 1 {
                        Err(StepError::EditionRequirements)
                    } else {
                        match find_rec(s, metadata) {
                            Some(RecordV::Metadata { mint: described_mint, .. }) => {
                                if described_mint != mint {
                                    Err(StepError::MintMismatch)
                                } else if find_rec(s, edition) is Some {
                                    Err(StepError::AccountInUse)
                                } else {
                                    Ok(
                                        store(
                                            store(
                                                s,
                                                edition,
                                                RecordV::Edition { mint, max_supply },
                                            ),
                                            mint,
                                            RecordV::Mint {
                                                decimals,
                                                supply,
                                                mint_authority: Some(edition),
                                                freeze_authority: Some(edition),
                                            },
                                        ),
                                    )
                                }
                            },
                            _ => Err(StepError::MissingMetadata),
                        }
                    }
                },
                _ => Err(StepError::NotAMint),
            }
        },
    }
}

/// Runs a plan action by action; the first failure is the plan's
/// failure, and success is the ledger after every action.
pub open spec fn spec_run(s: Seq<EntryV>, actions: Seq<CpiActionV>) -> Result<
    Seq<EntryV>,
    StepError,
>
    decreases actions.len(),
{
    if actions.len() == 0 {
        Ok(s)
    } else {
        match spec_apply(s, actions[0]) {
            Ok(s2) => spec_run(s2, actions.drop_first()),
            Err(e) => Err(e),
        }
    }
}

/// Storing at `k` makes `k` hold exactly the stored record.
pub proof fn lemma_find_store_same(s: Seq<EntryV>, k: Seq<u8>, r: RecordV)
    ensures
        find_rec(store(s, k, r), k) == Some(r),
    decreases s.len(),
{
    if s.len() == 0 {
    } else if s[0].key == k {
        assert((seq![EntryV { key: k, record: r }] + s.drop_first())[0] == EntryV {
            key: k,
            record: r,
        });
    } else {
        lemma_find_store_same(s.drop_first(), k, r);
        assert((seq![s[0]] + store(s.drop_first(), k, r)).drop_first() =~= store(
            s.drop_first(),
            k,
            r,
        ));
    }
}

/// Storing at `k` leaves every other address unchanged.
pub proof fn lemma_find_store_other(s: Seq<EntryV>, k: Seq<u8>, r: RecordV, k2: Seq<u8>)
    requires
        k2 != k,
    ensures
        find_rec(store(s, k, r), k2) == find_rec(s, k2),
    decreases s.len(),
{
    let c = store(s, k, r);
    if s.len() == 0 {
        assert(c =~= seq![EntryV { key: k, record: r }]);
        assert(c[0].key == k);
        assert(find_rec(c, k2) == find_rec(c.drop_first(), k2));
        assert(c.drop_first() =~= Seq::<EntryV>::empty());
        assert(find_rec(Seq::<EntryV>::empty(), k2) is None);
    } else if s[0].key == k {
        assert(c =~= seq![EntryV { key: k, record: r }] + s.drop_first());
        assert(c[0] == EntryV { key: k, record: r });
        assert(find_rec(c, k2) == find_rec(c.drop_first(), k2));
        assert(c.drop_first() =~= s.drop_first());
        assert(find_rec(s, k2) == find_rec(s.drop_first(), k2));
    } else {
        lemma_find_store_other(s.drop_first(), k, r, k2);
        assert(c =~= seq![s[0]] + store(s.drop_first(), k, r));
        assert(c[0] == s[0]);
        if s[0].key == k2 {
            assert(find_rec(c, k2) == Some(s[0].record));
            assert(find_rec(s, k2) == Some(s[0].record));
        } else {
            assert(find_rec(c, k2) == find_rec(c.drop_first(), k2));
            assert(c.drop_first() =~= store(s.drop_first(), k, r));
            assert(find_rec(s, k2) == find_rec(s.drop_first(), k2));
        }
    }
}

/// When the first hit for `k` is at index `i`, storing is updating
/// that index.
pub proof fn lemma_store_first_hit(s: Seq<EntryV>, k: Seq<u8>, r: RecordV, i: int)
    requires
        0 <= i < s.len(),
        s[i].key == k,
        forall|j: int| 0 <= j < i ==> s[j].key != k,
    ensures
        store(s, k, r) == s.update(i, EntryV { key: k, record: r }),
    decreases i,
{
    if i == 0 {
        assert(store(s, k, r) =~= s.update(0, EntryV { key: k, record: r }));
    } else {
        assert(s[0].key != k);
        assert(s.drop_first()[i - 1].key == k);
        assert(forall|j: int| 0 <= j < i - 1 ==> s.drop_first()[j].key != k);
        lemma_store_first_hit(s.drop_first(), k, r, i - 1);
        assert(store(s, k, r) =~= s.update(i, EntryV { key: k, record: r }));
    }
}

/// When the first hit for `k` is at index `i`, that entry is what
/// lookup returns.
pub proof fn lemma_find_first_hit(s: Seq<EntryV>, k: Seq<u8>, i: int)
    requires
        0 <= i < s.len(),
        s[i].key == k,
        forall|j: int| 0 <= j < i ==> s[j].key != k,
    ensures
        find_rec(s, k) == Some(s[i].record),
    decreases i,
{
    if i == 0 {
    } else {
        assert(s.drop_first()[i - 1].key == k);
        assert(forall|j: int| 0 <= j < i - 1 ==> s.drop_first()[j].key != k);
        lemma_find_first_hit(s.drop_first(), k, i - 1);
    }
}

/// An address on no entry is absent.
pub proof fn lemma_find_absent(s: Seq<EntryV>, k: Seq<u8>)
    requires
        forall|j: int| 0 <= j < s.len() ==> s[j].key != k,
    ensures
        find_rec(s, k) is None,
    decreases s.len(),
{
    if s.len() == 0 {
    } else {
        assert(forall|j: int| 0 <= j < s.drop_first().len() ==> s.drop_first()[j].key != k);
        lemma_find_absent(s.drop_first(), k);
    }
}

/// Storing at an absent address appends its entry.
pub proof fn lemma_store_absent(s: Seq<EntryV>, k: Seq<u8>, r: RecordV)
    requires
        forall|j: int| 0 <= j < s.len() ==> s[j].key != k,
    ensures
        store(s, k, r) == s.push(EntryV { key: k, record: r }),
    decreases s.len(),
{
    if s.len() == 0 {
        assert(store(s, k, r) =~= s.push(EntryV { key: k, record: r }));
    } else {
        assert(forall|j: int| 0 <= j < s.drop_first().len() ==> s.drop_first()[j].key != k);
        lemma_store_absent(s.drop_first(), k, r);
        assert(store(s, k, r) =~= s.push(EntryV { key: k, record: r }));
    }
}

/// The ledger: every externally owned record this system touches,
/// keyed by address.
pub struct Ledger {
    entries: Vec<LedgerEntry>,
}

impl View for Ledger {
    type V = Seq<EntryV>;

    closed spec fn view(&self) -> Seq<EntryV> {
        self.entries@.map_values(|e: LedgerEntry| e@)
    }
}

/// A copy of a record, field for field.
fn clone_record(rec: &AccountRecord) -> (r: AccountRecord)
    ensures
        r@ == rec@,
{
    match rec {
        AccountRecord::Funded { lamports } => AccountRecord::Funded { lamports: *lamports },
        AccountRecord::Raw { owner, space } => AccountRecord::Raw {
            owner: *owner,
            space: *space,
        },
        AccountRecord::Mint { decimals, supply, mint_authority, freeze_authority } => {
            AccountRecord::Mint {
                decimals: *decimals,
                supply: *supply,
                mint_authority: *mint_authority,
                freeze_authority: *freeze_authority,
            }
        },
        AccountRecord::Holder { wallet, mint, amount } => AccountRecord::Holder {
            wallet: *wallet,
            mint: *mint,
            amount: *amount,
        },
        AccountRecord::Metadata {
            mint,
            name,
            symbol,
            uri,
            update_authority,
            is_mutable,
            seller_fee_basis_points,
            has_creators,
            has_collection,
            has_uses,
        } => {
            AccountRecord::Metadata {
                mint: *mint,
                name: name.clone(),
                symbol: symbol.clone(),
                uri: uri.clone(),
                update_authority: *update_authority,
                is_mutable: *is_mutable,
                seller_fee_basis_points: *seller_fee_basis_points,
                has_creators: *has_creators,
                has_collection: *has_collection,
                has_uses: *has_uses,
            }
        },
        AccountRecord::Edition { mint, max_supply } => AccountRecord::Edition {
            mint: *mint,
            max_supply: *max_supply,
        },
    }
}

impl Ledger {
    /// An empty ledger.
    pub fn new() -> (r: Ledger)
        ensures
            r@ == Seq::<EntryV>::empty(),
    {
        let l = Ledger { entries: Vec::new() };
        proof {
            assert(l@ =~= Seq::<EntryV>::empty());
        }
        l
    }

    /// The index of the first entry at address `k`, if any.
    fn find_index(&self, k: &Key) -> (r: Option<usize>)
        ensures
            match r {
                Some(i) => {
                    &&& i < self@.len()
                    &&& self@[i as int].key == k@
                    &&& forall|j: int| 0 <= j < i ==> self@[j].key != k@
                },
                None => forall|j: int| 0 <= j < self@.len() ==> self@[j].key != k@,
            },
    {
        let mut i: usize = 0;
        while i < self.entries.len()
            invariant
                i <= self@.len(),
                self@.len() == self.entries@.len(),
                forall|j: int| 0 <= j < i ==> self@[j].key != k@,
            decreases self.entries@.len() - i,
        {
            if self.entries[i].key.key_eq(k) {
                return Some(i);
            }
            i += 1;
        }
        None
    }

    /// The record at address `k`, if any, as `find_rec` reads it.
    pub fn lookup(&self, k: &Key) -> (r: Option<AccountRecord>)
        ensures
            match r {
                Some(rec) => find_rec(self@, k@) == Some(rec@),
                None => find_rec(self@, k@) is None,
            },
    {
        match self.find_index(k) {
            Some(i) => {
                proof {
                    lemma_find_first_hit(self@, k@, i as int);
                }
                Some(clone_record(&self.entries[i].record))
            },
            None => {
                proof {
                    lemma_find_absent(self@, k@);
                }
                None
            },
        }
    }

    /// Writes `rec` at address `k`, as `store` does.  Besides serving
    /// the transitions of `apply`, this is how a starting state — a
    /// pre-funded address, an already created record — is laid down.
    pub fn set_record(&mut self, k: &Key, rec: AccountRecord)
        ensures
            final(self)@ == store(old(self)@, k@, rec@),
    {
        let entry = LedgerEntry { key: *k, record: rec };
        match self.find_index(k) {
            Some(i) => {
                proof {
                    lemma_store_first_hit(old(self)@, k@, entry@.record, i as int);
                }
                self.entries[i] = entry;
                proof {
                    assert(self@ =~= old(self)@.update(
                        i as int,
                        EntryV { key: k@, record: rec@ },
                    ));
                }
            },
            None => {
                proof {
                    lemma_store_absent(old(self)@, k@, entry@.record);
                }
                self.entries.push(entry);
                proof {
                    assert(self@ =~= old(self)@.push(EntryV { key: k@, record: rec@ }));
                }
            },
        }
    }

    /// A copy of the whole ledger.
    pub fn duplicate(&self) -> (r: Ledger)
        ensures
            r@ == self@,
    {
        let mut entries: Vec<LedgerEntry> = Vec::new();
        let mut i: usize = 0;
        while i < self.entries.len()
            invariant
                i <= self.entries@.len(),
                entries@.len() == i,
                forall|j: int| 0 <= j < i ==> entries@[j]@ == self.entries@[j]@,
            decreases self.entries@.len() - i,
        {
            entries.push(
                LedgerEntry {
                    key: self.entries[i].key,
                    record: clone_record(&self.entries[i].record),
                },
            );
            i += 1;
        }
        let l = Ledger { entries };
        proof {
            assert forall|j: int| 0 <= j < l@.len() implies l@[j] == self@[j] by {
                assert(entries@[j]@ == self.entries@[j]@);
            }
            assert(l@ =~= self@);
        }
        l
    }

    /// Performs one cross-program call, following `spec_apply` exactly;
    /// on failure the ledger is unchanged.
    pub fn apply(&mut self, action: &CpiAction) -> (r: Result<(), StepError>)
        ensures
            match r {
                Ok(_) => spec_apply(old(self)@, action@) == Ok::<Seq<EntryV>, StepError>(
                    final(self)@,
                ),
                Err(e) => {
                    &&& spec_apply(old(self)@, action@) == Err::<Seq<EntryV>, StepError>(e)
                    &&& final(self)@ == old(self)@
                },
            },
    {
        match action {
            CpiAction::CreateAccount { payer, new_account, lamports, space, owner } => {
                match self.lookup(new_account) {
                    Some(_) => Err(StepError::AccountInUse),
                    None => {
                        self.set_record(
                            new_account,
                            AccountRecord::Raw { owner: *owner, space: *space },
                        );
                        Ok(())
                    },
                }
            },
            CpiAction::InitializeMint {
                token_program,
                mint,
                mint_authority,
                freeze_authority,
                decimals,
            } => {
                match self.lookup(mint) {
                    Some(AccountRecord::Raw { owner, space }) => {
                        if !owner.key_eq(token_program) {
                            Err(StepError::OwnerMismatch)
                        } else if space != MINT_RECORD_SPACE {
                            Err(StepError::SizeMismatch)
                        } else {
                            self.set_record(
                                mint,
                                AccountRecord::Mint {
                                    decimals: *decimals,
                                    supply: 0,
                                    mint_authority: Some(*mint_authority),
                                    freeze_authority: Some(*freeze_authority),
                                },
                            );
                            Ok(())
                        }
                    },
                    Some(_) => Err(StepError::AccountInUse),
                    None => Err(StepError::MissingAccount),
                }
            },
            CpiAction::CreateMetadata {
                metadata_program,
                metadata,
                mint,
                mint_authority,
                payer,
                update_authority,
                name,
                symbol,
                uri,
                seller_fee_basis_points,
                has_creators,
                has_collection,
                has_uses,
            } => {
                match self.lookup(mint) {
                    Some(AccountRecord::Mint { mint_authority: ma, .. }) => {
                        let authorized = match ma {
                            Some(a) => a.key_eq(mint_authority),
                            None => false,
                        };
                        if !authorized {
                            Err(StepError::AuthorityMismatch)
                        } else {
                            match self.lookup(metadata) {
                                Some(_) => Err(StepError::AccountInUse),
                                None => {
                                    self.set_record(
                                        metadata,
                                        AccountRecord::Metadata {
                                            mint: *mint,
                                            name: name.clone(),
                                            symbol: symbol.clone(),
                                            uri: uri.clone(),
                                            update_authority: *update_authority,
                                            is_mutable: true,
                                            seller_fee_basis_points: *seller_fee_basis_points,
                                            has_creators: *has_creators,
                                            has_collection: *has_collection,
                                            has_uses: *has_uses,
                                        },
                                    );
                                    Ok(())
                                },
                            }
                        }
                    },
                    _ => Err(StepError::NotAMint),
                }
            },
            CpiAction::CreateHolderAccount { payer, wallet, mint, holder, token_program } => {
                match self.lookup(mint) {
                    Some(AccountRecord::Mint { .. }) => {
                        match self.lookup(holder) {
                            None => {
                                self.set_record(
                                    holder,
                                    AccountRecord::Holder {
                                        wallet: *wallet,
                                        mint: *mint,
                                        amount: 0,
                                    },
                                );
                                Ok(())
                            },
                            Some(AccountRecord::Funded { .. }) => {
                                self.set_record(
                                    holder,
                                    AccountRecord::Holder {
                                        wallet: *wallet,
                                        mint: *mint,
                                        amount: 0,
                                    },
                                );
                                Ok(())
                            },
                            Some(_) => Err(StepError::AccountInUse),
                        }
                    },
                    _ => Err(StepError::NotAMint),
                }
            },
            CpiAction::MintTo { token_program, mint, destination, authority, amount } => {
                match self.lookup(mint) {
                    Some(
                        AccountRecord::Mint { decimals, supply, mint_authority, freeze_authority },
                    ) => {
                        let authorized = match mint_authority {
                            Some(a) => a.key_eq(authority),
                            None => false,
                        };
                        if !authorized {
                            Err(StepError::AuthorityMismatch)
                        } else {
                            match self.lookup(destination) {
                                Some(AccountRecord::Holder { wallet, mint: held_mint, amount: balance }) => {
                                    if !held_mint.key_eq(mint) {
                                        Err(StepError::MintMismatch)
                                    } else if *amount > u64::MAX - supply || *amount > u64::MAX
                                        - balance {
                                        Err(StepError::ArithmeticOverflow)
                                    } else {
                                        self.set_record(
                                            mint,
                                            AccountRecord::Mint {
                                                decimals,
                                                supply: supply + *amount,
                                                mint_authority,
                                                freeze_authority,
                                            },
                                        );
                                        self.set_record(
                                            destination,
                                            AccountRecord::Holder {
                                                wallet,
                                                mint: held_mint,
                                                amount: balance + *amount,
                                            },
                                        );
                                        Ok(())
                                    }
                                },
                                _ => Err(StepError::NotAHolder),
                            }
                        }
                    },
                    _ => Err(StepError::NotAMint),
                }
            },
            CpiAction::CreateMasterEdition {
                metadata_program,
                edition,
                mint,
                update_authority,
                mint_authority,
                payer,
                metadata,
                max_supply,
            } => {
                match self.lookup(mint) {
                    Some(
                        AccountRecord::Mint {
                            decimals,
                            supply,
                            mint_authority: ma,
                            freeze_authority,
                        },
                    ) => {
                        let authorized = match ma {
                            Some(a) => a.key_eq(mint_authority),
                            None => false,
                        };
                        if !authorized {
                            Err(StepError::AuthorityMismatch)
                        } else if decimals != 0 || supply != 1 {
                            Err(StepError::EditionRequirements)
                        } else {
                            match self.lookup(metadata) {
                                Some(AccountRecord::Metadata { mint: described_mint, .. }) => {
                                    if !described_mint.key_eq(mint) {
                                        Err(StepError::MintMismatch)
                                    } else {
                                        match self.lookup(edition) {
                                            Some(_) => Err(StepError::AccountInUse),
                                            None => {
                                                self.set_record(
                                                    edition,
                                                    AccountRecord::Edition {
                                                        mint: *mint,
                                                        max_supply: *max_supply,
                                                    },
                                                );
                                                self.set_record(
                                                    mint,
                                                    AccountRecord::Mint {
                                                        decimals,
                                                        supply,
                                                        mint_authority: Some(*edition),
                                                        freeze_authority: Some(*edition),
                                                    },
                                                );
                                                Ok(())
                                            },
                                        }
                                    }
                                },
                                _ => Err(StepError::MissingMetadata),
                            }
                        }
                    },
                    _ => Err(StepError::NotAMint),
                }
            },
        }
    }

    /// Runs a whole plan atomically: the result is the ledger after
    /// every action in order, or the first failure, in which case this
    /// ledger is untouched and no new ledger is produced.
    pub fn run(&self, actions: &Vec<CpiAction>) -> (r: Result<Ledger, StepError>)
        ensures
            match r {
                Ok(l2) => spec_run(self@, plan_view(actions@)) == Ok::<Seq<EntryV>, StepError>(
                    l2@,
                ),
                Err(e) => spec_run(self@, plan_view(actions@)) == Err::<Seq<EntryV>, StepError>(
                    e,
                ),
            },
    {
        let ghost pv = plan_view(actions@);
        let mut cur = self.duplicate();
        proof {
            assert(pv.subrange(0, pv.len() as int) =~= pv);
        }
        let mut idx: usize = 0;
        while idx < actions.len()
            invariant
                idx <= actions@.len(),
                pv == plan_view(actions@),
                pv.len() == actions@.len(),
                spec_run(self@, pv) == spec_run(cur@, pv.subrange(idx as int, pv.len() as int)),
            decreases actions@.len() - idx,
        {
            let ghost rem = pv.subrange(idx as int, pv.len() as int);
            proof {
                assert(rem[0] == pv[idx as int]);
            }
            match cur.apply(&actions[idx]) {
                Ok(_) => {
                    proof {
                        assert(rem.drop_first() =~= pv.subrange(idx + 1, pv.len() as int));
                    }
                },
                Err(e) => {
                    return Err(e);
                },
            }
            idx += 1;
        }
        proof {
            assert(pv.subrange(pv.len() as int, pv.len() as int) =~= Seq::<CpiActionV>::empty());
        }
        Ok(cur)
    }
}

} // verus!
