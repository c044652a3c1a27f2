use vstd::prelude::*;

pub mod codec;
pub mod cpi;
pub mod instructions;
pub mod ix;
pub mod laws;
pub mod ledger;
pub mod processor;

verus! {

/// A 32-byte ledger address, the key under which every externally owned
/// record (mint, metadata, holder account, edition) is stored.
#[derive(Clone, Copy, Debug)]
pub struct Key {
    pub bytes: [u8; 32],
}

impl View for Key {
    type V = Seq<u8>;

    open spec fn view(&self) -> Seq<u8> {
        self.bytes@
    }
}

impl Key {
    /// Byte-for-byte equality of two addresses.
    pub fn key_eq(&self, other: &Key) -> (r: bool)
        ensures
            r <==> self@ == other@,
    {
        let mut i: usize = 0;
        while i < 32
            invariant
                i <= 32,
                forall|j: int| 0 <= j < i ==> self.bytes@[j] == other.bytes@[j],
            decreases 32 - i,
        {
            if self.bytes[i] != other.bytes[i] {
                assert(self@ != other@);
                return false;
            }
            i += 1;
        }
        proof {
            assert(self.bytes@ =~= other.bytes@);
        }
        true
    }
}

/// One account supplied with a request: its address and its current
/// funded balance, the two things the handlers read before planning
/// their cross-program calls.
#[derive(Clone, Copy, Debug)]
pub struct AccountIn {
    pub key: Key,
    pub lamports: u64,
}

/// Ghost image of an `AccountIn`.
pub ghost struct AccountInV {
    pub key: Seq<u8>,
    pub lamports: u64,
}

impl View for AccountIn {
    type V = AccountInV;

    open spec fn view(&self) -> AccountInV {
        AccountInV { key: self.key@, lamports: self.lamports }
    }
}

/// The ghost images of a supplied account list, position by position.
pub open spec fn accounts_view(s: Seq<AccountIn>) -> Seq<AccountInV> {
    s.map_values(|a: AccountIn| a@)
}

/// The failures this program reports itself, before any cross-program
/// call is issued: a payload that does not decode, an account list
/// shorter than the handler's fixed positional contract, or a token
/// program address that is not the fungible ledger's own, refused by
/// its instruction constructors.
#[derive(Clone, Copy, Debug, PartialEq, Eq, Structural)]
pub enum ProgError {
    InvalidInstructionData,
    NotEnoughAccountKeys,
    IncorrectProgramId,
}

} // verus!
