//! The trusted boundary to the outside collaborators: the host's authority
//! derivation, the asset-ledger program's identity and token-account layout,
//! and the storage-cost oracle. Every contract here is believed, not proved;
//! each doc comment names the outside function it rests on.

use vstd::prelude::*;

use crate::accounts::AccountId;
use crate::error::ProgramError;
use crate::wire::{le_u64, le_u64_from};

verus! {

/// Whether the escrow authority derivation finds a viable address for this
/// program identity (it fails only in the statistically improbable event that
/// no bump yields an off-curve address).
pub uninterp spec fn escrow_authority_exists(program: Seq<u8>) -> bool;

/// The identity of the program-derived escrow authority for a given program
/// identity, under the fixed domain-separation seed.
pub uninterp spec fn escrow_authority_key(program: Seq<u8>) -> Seq<u8>;

/// The proof factor (bump) that accompanies the derived authority.
pub uninterp spec fn escrow_authority_bump(program: Seq<u8>) -> u8;

/// Relies on solana_program's `Pubkey::try_find_program_address` with the
/// fixed seed `b"escrow"`: it returns an off-curve address and its bump, both
/// a function of the seed and the program identity alone, or `None` exactly
/// when no bump yields such an address.
#[verifier::external_body]
pub(crate) fn find_escrow_authority(program_id: &AccountId) -> (r: Option<(AccountId, u8)>)
    ensures
        r is Some <==> escrow_authority_exists(program_id@),
        r matches Some(p) ==> p.0@ == escrow_authority_key(program_id@) && p.1
            == escrow_authority_bump(program_id@),
{
    let program = solana_program::pubkey::Pubkey::new_from_array(program_id.0);
    match solana_program::pubkey::Pubkey::try_find_program_address(&[b"escrow"], &program) {
        Some((key, bump)) => Some((AccountId(key.to_bytes()), bump)),
        None => None,
    }
}

/// Derive the program's escrow authority: the custodian identity for deposits
/// and the proof factor later used to authorize actions as that identity.
pub fn derive_authority(program_id: &AccountId) -> (r: Option<(AccountId, u8)>)
    ensures
        r is Some <==> escrow_authority_exists(program_id@),
        r matches Some(p) ==> p.0@ == escrow_authority_key(program_id@) && p.1
            == escrow_authority_bump(program_id@),
{
    find_escrow_authority(program_id)
}

/// Authority derivation is deterministic: for one and the same program
/// identity, repeated derivations yield one and the same authority identity
/// and proof factor.
pub proof fn lemma_authority_derivation_deterministic(p1: Seq<u8>, p2: Seq<u8>)
    requires
        p1 == p2,
    ensures
        escrow_authority_exists(p1) == escrow_authority_exists(p2),
        escrow_authority_key(p1) == escrow_authority_key(p2),
        escrow_authority_bump(p1) == escrow_authority_bump(p2),
{
}

/// The asset-ledger program's identity.
pub open spec fn spl_token_id_bytes() -> Seq<u8> {
    seq![
        6u8, 221u8, 246u8, 225u8, 215u8, 101u8, 161u8, 147u8, 217u8, 203u8, 225u8, 70u8, 206u8,
        235u8, 121u8, 172u8, 28u8, 180u8, 133u8, 237u8, 95u8, 91u8, 55u8, 145u8, 58u8, 140u8,
        245u8, 133u8, 126u8, 255u8, 0u8, 169u8,
    ]
}

/// Relies on `spl_token::id()`: the asset-ledger program identity is this
/// fixed, well-known constant.
#[verifier::external_body]
pub(crate) fn spl_token_program_id() -> (r: AccountId)
    ensures
        r@ == spl_token_id_bytes(),
{
    AccountId(spl_token::id().to_bytes())
}

/// The storage-cost oracle's verdict for an account holding `lamports` with
/// `data_len` bytes, judged against the oracle state serialized in the given
/// sysvar account (its identity and data): `None` when that account is not a
/// readable oracle sysvar.
pub uninterp spec fn rent_exempt_verdict(
    key: Seq<u8>,
    data: Seq<u8>,
    lamports: u64,
    data_len: nat,
) -> Option<bool>;

/// The storage-cost computation multiplies the oracle's per-byte-year price
/// (the first eight little-endian bytes of its serialized state) by the
/// account length plus a fixed 128-byte overhead, unchecked in 64 bits: the
/// product must fit.
pub open spec fn rent_price_bounded(data: Seq<u8>, data_len: nat) -> bool {
    data.len() >= 8 ==> (128 + data_len) * le_u64(data.subrange(0, 8)) <= u64::MAX
}

/// Whether the storage-cost computation on this oracle state stays within the
/// collaborator's 64-bit arithmetic.
pub fn rent_price_guard(rent_data: &Vec<u8>, data_len: usize) -> (r: bool)
    ensures
        r == rent_price_bounded(rent_data@, data_len as nat),
{
    if rent_data.len() < 8 {
        return true;
    }
    let price = le_u64_from(rent_data.as_slice(), 0);
    if price == 0 {
        return true;
    }
    let sized: u128 = 128u128 + data_len as u128;
    if sized > u64::MAX as u128 {
        assert((128 + data_len as int) * price > u64::MAX) by (nonlinear_arith)
            requires
                128 + data_len as int > u64::MAX,
                price >= 1,
        ;
        return false;
    }
    assert(sized * (price as u128) <= 0xFFFF_FFFF_FFFF_FFFFu128 * 0xFFFF_FFFF_FFFF_FFFFu128)
        by (nonlinear_arith)
        requires
            sized <= 0xFFFF_FFFF_FFFF_FFFFu128,
            price <= 0xFFFF_FFFF_FFFF_FFFFu64,
    ;
    let product: u128 = sized * (price as u128);
    product <= u64::MAX as u128
}

/// Relies on solana_program's `Rent::from_account_info` (the sysvar account's
/// identity is checked and its data deserialized) and `Rent::is_exempt`: both
/// are functions of the given bytes and numbers alone. `Rent::minimum_balance`
/// multiplies the oracle's price by the sized length unchecked in 64 bits, so
/// oracle states on which that product overflows are excluded here; the
/// caller tests the bound first.
#[verifier::external_body]
pub(crate) fn check_rent_exempt(
    rent_key: &AccountId,
    rent_data: &Vec<u8>,
    lamports: u64,
    data_len: usize,
) -> (r: Option<bool>)
    requires
        rent_price_bounded(rent_data@, data_len as nat),
    ensures
        r == rent_exempt_verdict(rent_key@, rent_data@, lamports, data_len as nat),
{
    let key = solana_program::pubkey::Pubkey::new_from_array(rent_key.0);
    let owner = solana_program::sysvar::id();
    let mut lam: u64 = 0;
    let mut data = rent_data.clone();
    let info = solana_program::account_info::AccountInfo::new(
        &key, false, false, &mut lam, &mut data, &owner, false, 0,
    );
    match solana_program::sysvar::Sysvar::from_account_info(&info) {
        Ok(rent) => {
            let rent: solana_program::rent::Rent = rent;
            Some(rent.is_exempt(lamports, data_len))
        },
        Err(_) => None,
    }
}

/// A four-byte optional-field tag as the token program writes it.
pub open spec fn coption_tag_ok(s: Seq<u8>) -> bool {
    s.len() == 4 && (s[0] == 0 || s[0] == 1) && s[1] == 0 && s[2] == 0 && s[3] == 0
}

/// A 165-byte token-account image parses: each optional field carries a valid
/// tag and the state byte names a known state.
pub open spec fn token_account_parses(s: Seq<u8>) -> bool {
    &&& s.len() == 165
    &&& coption_tag_ok(s.subrange(72, 76))
    &&& s[108] <= 2
    &&& coption_tag_ok(s.subrange(109, 113))
    &&& coption_tag_ok(s.subrange(129, 133))
}

/// The owned balance recorded in a token-account image.
pub open spec fn token_account_balance(s: Seq<u8>) -> int
    recommends
        s.len() == 165,
{
    le_u64(s.subrange(64, 72))
}

/// What reading the balance out of a token-account image yields: the image
/// must have the exact size and parse, and must not be in the uninitialized
/// state.
pub open spec fn token_amount_result(s: Seq<u8>) -> Result<u64, ProgramError> {
    if !token_account_parses(s) {
        Err(ProgramError::InvalidAccountData)
    } else if s[108] == 0 {
        Err(ProgramError::UninitializedAccount)
    } else {
        Ok(token_account_balance(s) as u64)
    }
}

/// Relies on spl_token's `Account::unpack`: a token account is a fixed
/// 165-byte layout with the owned balance little-endian at bytes 64..72, the
/// state byte at 108, and optional-field tags at 72..76, 109..113 and
/// 129..133; unpacking rejects any other size or tag as invalid account data
/// and an uninitialized state as an uninitialized account.
#[verifier::external_body]
pub(crate) fn unpack_token_amount(data: &Vec<u8>) -> (r: Result<u64, ProgramError>)
    ensures
        r == token_amount_result(data@),
{
    match solana_program::program_pack::Pack::unpack(data.as_slice()) {
        Ok(account) => {
            let account: spl_token::state::Account = account;
            Ok(account.amount)
        },
        Err(solana_program::program_error::ProgramError::UninitializedAccount) => Err(
            ProgramError::UninitializedAccount,
        ),
        Err(_) => Err(ProgramError::InvalidAccountData),
    }
}

} // verus!
