//! Plain-value models of the host's account machinery: a 32-byte account
//! identity, one entry of the caller-supplied account list, and the ledger
//! actions a handler asks the asset-ledger collaborator to perform.

use vstd::prelude::*;

verus! {

/// A 32-byte account identity (the plain-value form of a public key).
#[derive(Debug, Clone, Copy, PartialEq, Eq)]
pub struct AccountId(pub [u8; 32]);

impl View for AccountId {
    type V = Seq<u8>;

    open spec fn view(&self) -> Seq<u8> {
        self.0@
    }
}

impl AccountId {
    pub fn new(bytes: [u8; 32]) -> (r: AccountId)
        ensures
            r@ == bytes@,
    {
        AccountId(bytes)
    }

    /// Byte-for-byte equality of two identities.
    pub fn eq_id(&self, other: &AccountId) -> (r: bool)
        ensures
            r == (self@ == other@),
    {
        let mut i: usize = 0;
        while i < 32
            invariant
                i <= 32,
                forall|j: int| 0 <= j < i ==> self@[j] == other@[j],
            decreases 32 - i,
        {
            if self.0[i] != other.0[i] {
                assert(self@[i as int] != other@[i as int]);
                return false;
            }
            i = i + 1;
        }
        assert(self@ =~= other@);
        true
    }
}

/// Copy the 32 identity bytes stored at `off`.
pub fn read_account_id(bytes: &Vec<u8>, off: usize) -> (r: AccountId)
    requires
        off + 32 <= bytes@.len(),
    ensures
        r@ == bytes@.subrange(off as int, off as int + 32),
{
    let mut a: [u8; 32] = [0u8; 32];
    let n = bytes.len();
    let mut i: usize = 0;
    while i < 32
        invariant
            i <= 32,
            off + 32 <= n,
            n == bytes@.len(),
            forall|j: int| 0 <= j < i ==> a@[j] == bytes@[off + j],
        decreases 32 - i,
    {
        a[i] = bytes[off + i];
        i = i + 1;
    }
    assert(a@ =~= bytes@.subrange(off as int, off as int + 32));
    AccountId(a)
}

/// Append the 32 identity bytes.
pub fn push_account_id(out: &mut Vec<u8>, id: &AccountId)
    ensures
        final(out)@ == old(out)@ + id@,
{
    let mut i: usize = 0;
    while i < 32
        invariant
            i <= 32,
            out@ == old(out)@ + id@.subrange(0, i as int),
        decreases 32 - i,
    {
        out.push(id.0[i]);
        assert(out@ =~= old(out)@ + id@.subrange(0, i + 1));
        i = i + 1;
    }
    assert(out@ =~= old(out)@ + id@);
}

/// One entry of the caller-supplied account list, reduced to the plain values
/// the protocol reads and writes. Which identity may sign and who owns which
/// account are facts the host establishes before dispatch.
#[derive(Debug, Clone, PartialEq, Eq)]
pub struct AccountInfo {
    pub key: AccountId,
    pub is_signer: bool,
    pub owner: AccountId,
    pub lamports: u64,
    pub data: Vec<u8>,
}

/// Who authorizes a ledger action: a transaction signer, or the program's
/// derived authority, which signs by reproducing its seed and proof factor
/// (the bump carried alongside the identity).
#[derive(Debug, Clone, Copy, PartialEq, Eq)]
pub enum Authority {
    Signer(AccountId),
    Derived(AccountId, u8),
}

/// One call the handlers ask the asset-ledger collaborator to perform. The
/// whole list is applied atomically after validation, or not at all.
#[derive(Debug, Clone, Copy, PartialEq, Eq)]
pub enum TokenAction {
    /// Hand custody of `account` to `new_authority`.
    SetAuthority { account: AccountId, new_authority: AccountId, authority: Authority },
    /// Move `amount` from `source` to `destination`.
    Transfer { source: AccountId, destination: AccountId, amount: u64, authority: Authority },
    /// Close `account`, reclaiming its storage deposit to `destination`.
    Close { account: AccountId, destination: AccountId, authority: Authority },
}

} // verus!
