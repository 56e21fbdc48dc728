//! The escrow record: the fixed-layout persisted state describing one open
//! escrow, and its codec to and from the record account's byte buffer.
//!
//! Wire layout, 105 bytes: 1 (initialized flag) + 32 (initializer identity)
//! + 32 (deposit-account identity) + 32 (payout-destination identity)
//! + 8 (expected amount, little-endian), in that order.

use vstd::prelude::*;

use crate::accounts::{push_account_id, read_account_id, AccountId, AccountInfo};
use crate::error::ProgramError;
use crate::wire::{le_u64, le_u64_from, push_le_u64, u64_le_bytes};

verus! {

/// The wire size of a record.
pub const ESCROW_LEN: usize = 1 + 32 + 32 + 32 + 8;

/// One open escrow. While `is_initialized` holds, custody of the deposit
/// account rests with the derived authority, an external fact the record
/// depends on but does not store.
#[derive(Debug, Clone, Copy, PartialEq, Eq)]
pub struct Escrow {
    pub is_initialized: bool,
    pub initializer_pubkey: AccountId,
    pub temp_token_account_pubkey: AccountId,
    pub initializer_token_to_receive_account_pubkey: AccountId,
    pub expected_amount: u64,
}

/// The mathematical form of a record: each identity as its byte sequence.
#[verifier::ext_equal]
pub struct EscrowView {
    pub is_initialized: bool,
    pub initializer_pubkey: Seq<u8>,
    pub temp_token_account_pubkey: Seq<u8>,
    pub initializer_token_to_receive_account_pubkey: Seq<u8>,
    pub expected_amount: u64,
}

impl View for Escrow {
    type V = EscrowView;

    open spec fn view(&self) -> EscrowView {
        EscrowView {
            is_initialized: self.is_initialized,
            initializer_pubkey: self.initializer_pubkey@,
            temp_token_account_pubkey: self.temp_token_account_pubkey@,
            initializer_token_to_receive_account_pubkey:
                self.initializer_token_to_receive_account_pubkey@,
            expected_amount: self.expected_amount,
        }
    }
}

/// A record whose identities have their full 32 bytes; every `Escrow` value
/// views to such a record.
pub open spec fn record_wf(v: EscrowView) -> bool {
    &&& v.initializer_pubkey.len() == 32
    &&& v.temp_token_account_pubkey.len() == 32
    &&& v.initializer_token_to_receive_account_pubkey.len() == 32
}

/// The 105 bytes a record packs to.
pub open spec fn escrow_record_bytes(v: EscrowView) -> Seq<u8> {
    seq![if v.is_initialized { 1u8 } else { 0u8 }] + v.initializer_pubkey
        + v.temp_token_account_pubkey + v.initializer_token_to_receive_account_pubkey
        + u64_le_bytes(v.expected_amount)
}

/// A buffer decodes iff it has exactly the record size and a valid flag byte.
pub open spec fn record_decodes(s: Seq<u8>) -> bool {
    s.len() == ESCROW_LEN && (s[0] == 0 || s[0] == 1)
}

/// The record a well-formed buffer holds.
pub open spec fn decoded_record(s: Seq<u8>) -> EscrowView
    recommends
        record_decodes(s),
{
    EscrowView {
        is_initialized: s[0] == 1,
        initializer_pubkey: s.subrange(1, 33),
        temp_token_account_pubkey: s.subrange(33, 65),
        initializer_token_to_receive_account_pubkey: s.subrange(65, 97),
        expected_amount: le_u64(s.subrange(97, 105)) as u64,
    }
}

/// Whether a storage slot already holds a live record.
pub open spec fn slot_initialized(s: Seq<u8>) -> bool {
    s.len() == ESCROW_LEN && s[0] == 1
}

/// A record serialized and then deserialized comes back field for field.
pub proof fn lemma_record_round_trip(v: EscrowView)
    requires
        record_wf(v),
    ensures
        record_decodes(escrow_record_bytes(v)),
        decoded_record(escrow_record_bytes(v)) == v,
{
    let s = escrow_record_bytes(v);
    assert(s.len() == 105);
    assert(s.subrange(1, 33) =~= v.initializer_pubkey);
    assert(s.subrange(33, 65) =~= v.temp_token_account_pubkey);
    assert(s.subrange(65, 97) =~= v.initializer_token_to_receive_account_pubkey);
    assert(s.subrange(97, 105) =~= u64_le_bytes(v.expected_amount));
    crate::wire::lemma_le_u64_round_trip(v.expected_amount);
    assert(decoded_record(s) =~= v);
}

impl Escrow {
    /// The 105 record bytes, written in one piece.
    pub fn pack(&self) -> (r: Vec<u8>)
        ensures
            r@ == escrow_record_bytes(self@),
            r@.len() == ESCROW_LEN,
    {
        let mut out: Vec<u8> = Vec::new();
        out.push(if self.is_initialized {
            1
        } else {
            0
        });
        push_account_id(&mut out, &self.initializer_pubkey);
        push_account_id(&mut out, &self.temp_token_account_pubkey);
        push_account_id(&mut out, &self.initializer_token_to_receive_account_pubkey);
        push_le_u64(&mut out, self.expected_amount);
        assert(out@ =~= escrow_record_bytes(self@));
        out
    }

    /// Read the record persisted in the escrow account. The buffer must hold
    /// exactly one record with a valid flag byte; anything else is rejected
    /// as invalid account data.
    pub fn from_account_info(account: &AccountInfo) -> (r: Result<Escrow, ProgramError>)
        ensures
            record_decodes(account.data@) ==> (r matches Ok(e) && e@ == decoded_record(
                account.data@,
            )),
            !record_decodes(account.data@) ==> r == Err::<Escrow, ProgramError>(
                ProgramError::InvalidAccountData,
            ),
    {
        let data = &account.data;
        if data.len() != ESCROW_LEN {
            return Err(ProgramError::InvalidAccountData);
        }
        let flag = data[0];
        if flag > 1 {
            return Err(ProgramError::InvalidAccountData);
        }
        let amount = le_u64_from(data.as_slice(), 97);
        Ok(
            Escrow {
                is_initialized: flag == 1,
                initializer_pubkey: read_account_id(data, 1),
                temp_token_account_pubkey: read_account_id(data, 33),
                initializer_token_to_receive_account_pubkey: read_account_id(data, 65),
                expected_amount: amount,
            },
        )
    }

    /// Persist the record into the escrow account's buffer: the whole record
    /// is written as one prefix, the tail is left as it was. A buffer shorter
    /// than one record is rejected untouched.
    pub fn to_account_info(&self, account: &mut AccountInfo) -> (r: Result<(), ProgramError>)
        ensures
            old(account).data@.len() >= ESCROW_LEN ==> {
                &&& r == Ok::<(), ProgramError>(())
                &&& final(account).data@ == escrow_record_bytes(self@) + old(account).data@.skip(
                    ESCROW_LEN as int,
                )
            },
            old(account).data@.len() < ESCROW_LEN ==> {
                &&& r == Err::<(), ProgramError>(ProgramError::AccountDataTooSmall)
                &&& final(account).data@ == old(account).data@
            },
            final(account).key == old(account).key,
            final(account).is_signer == old(account).is_signer,
            final(account).owner == old(account).owner,
            final(account).lamports == old(account).lamports,
    {
        if account.data.len() < ESCROW_LEN {
            return Err(ProgramError::AccountDataTooSmall);
        }
        let mut new_data = self.pack();
        let mut i: usize = ESCROW_LEN;
        while i < account.data.len()
            invariant
                ESCROW_LEN <= i <= account.data@.len(),
                new_data@ == escrow_record_bytes(self@) + account.data@.subrange(
                    ESCROW_LEN as int,
                    i as int,
                ),
            decreases account.data@.len() - i,
        {
            new_data.push(account.data[i]);
            assert(new_data@ =~= escrow_record_bytes(self@) + account.data@.subrange(
                ESCROW_LEN as int,
                i + 1,
            ));
            i = i + 1;
        }
        assert(new_data@ =~= escrow_record_bytes(self@) + account.data@.skip(ESCROW_LEN as int));
        account.data = new_data;
        Ok(())
    }
}

} // verus!
