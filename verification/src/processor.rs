//! The two handlers and the dispatcher. Each handler validates the
//! caller-supplied account list strictly in order, then either returns a
//! typed failure with the account list untouched, or applies its account
//! mutations and returns the full list of ledger actions to perform — the
//! staged effects are visible only on success, never partially.

use vstd::prelude::*;

use crate::accounts::{AccountId, AccountInfo, Authority, TokenAction};
use crate::error::{custom_error, EscrowError, ProgramError};
use crate::instruction::{parsed_instruction, payload_parses, EscrowInstruction};
use crate::ledger::{
    check_rent_exempt, escrow_authority_bump, escrow_authority_exists, escrow_authority_key,
    find_escrow_authority, rent_exempt_verdict, rent_price_bounded, rent_price_guard,
    spl_token_id_bytes, spl_token_program_id, token_account_balance, token_amount_result,
    unpack_token_amount,
};
use crate::state::{
    decoded_record, escrow_record_bytes, record_decodes, slot_initialized, Escrow, EscrowView,
    ESCROW_LEN,
};

verus! {

/// The failure an init call returns, or `None` where it succeeds. The checks
/// stand strictly in this order; positions in the account list are fixed:
/// 0 initializer, 1 deposit account, 2 payout destination, 3 escrow record,
/// 4 storage-cost oracle sysvar, 5 asset-ledger program.
pub open spec fn init_error(accounts: Seq<AccountInfo>, program: Seq<u8>) -> Option<ProgramError> {
    if accounts.len() < 6 {
        Some(ProgramError::NotEnoughAccountKeys)
    } else if !accounts[0].is_signer {
        Some(ProgramError::MissingRequiredSignature)
    } else if accounts[2].owner@ != spl_token_id_bytes() {
        Some(ProgramError::IncorrectProgramId)
    } else if !rent_price_bounded(accounts[4].data@, accounts[3].data@.len()) {
        Some(ProgramError::InvalidArgument)
    } else {
        match rent_exempt_verdict(
            accounts[4].key@,
            accounts[4].data@,
            accounts[3].lamports,
            accounts[3].data@.len(),
        ) {
            Option::None => Some(ProgramError::InvalidArgument),
            Option::Some(exempt) => if !exempt {
                Some(custom_error(EscrowError::NotRentExempt))
            } else if slot_initialized(accounts[3].data@) {
                Some(ProgramError::AccountAlreadyInitialized)
            } else if accounts[3].data@.len() < ESCROW_LEN {
                Some(ProgramError::AccountDataTooSmall)
            } else if !escrow_authority_exists(program) {
                Some(ProgramError::InvalidSeeds)
            } else {
                None
            },
        }
    }
}

/// The record an init call persists.
pub open spec fn init_record(accounts: Seq<AccountInfo>, amount: u64) -> EscrowView {
    EscrowView {
        is_initialized: true,
        initializer_pubkey: accounts[0].key@,
        temp_token_account_pubkey: accounts[1].key@,
        initializer_token_to_receive_account_pubkey: accounts[2].key@,
        expected_amount: amount,
    }
}

/// What a successful init did: the whole new record stands as the prefix of
/// the escrow account's buffer, everything else is untouched, and one action
/// hands custody of the deposit to the derived authority.
pub open spec fn init_effects(
    old_acc: Seq<AccountInfo>,
    new_acc: Seq<AccountInfo>,
    acts: Seq<TokenAction>,
    amount: u64,
    program: Seq<u8>,
) -> bool {
    &&& new_acc.len() == old_acc.len()
    &&& forall|j: int| 0 <= j < old_acc.len() && j != 3 ==> new_acc[j] == old_acc[j]
    &&& new_acc[3].key == old_acc[3].key
    &&& new_acc[3].is_signer == old_acc[3].is_signer
    &&& new_acc[3].owner == old_acc[3].owner
    &&& new_acc[3].lamports == old_acc[3].lamports
    &&& new_acc[3].data@ == escrow_record_bytes(init_record(old_acc, amount)) + old_acc[3].data@.skip(
        ESCROW_LEN as int,
    )
    &&& acts.len() == 1
    &&& (acts[0] matches TokenAction::SetAuthority { account, new_authority, authority }
        && account == old_acc[1].key && new_authority@ == escrow_authority_key(program)
        && authority == Authority::Signer(old_acc[0].key))
}

/// Open an escrow: validate, persist the record, and hand custody of the
/// deposit account to the derived authority. On any failure the account list
/// is exactly as it was and no action is issued.
pub fn process_init_escrow(
    accounts: &mut Vec<AccountInfo>,
    amount: u64,
    program_id: &AccountId,
) -> (r: Result<Vec<TokenAction>, ProgramError>)
    ensures
        r is Err ==> final(accounts)@ == old(accounts)@,
        r matches Err(e) ==> Some(e) == init_error(old(accounts)@, program_id@),
        r is Ok ==> init_error(old(accounts)@, program_id@) is None,
        r matches Ok(acts) ==> init_effects(old(accounts)@, final(accounts)@, acts@, amount, program_id@),
{
    if accounts.len() < 6 {
        return Err(ProgramError::NotEnoughAccountKeys);
    }
    if !accounts[0].is_signer {
        return Err(ProgramError::MissingRequiredSignature);
    }
    let token_program_id = spl_token_program_id();
    if !accounts[2].owner.eq_id(&token_program_id) {
        return Err(ProgramError::IncorrectProgramId);
    }
    if !rent_price_guard(&accounts[4].data, accounts[3].data.len()) {
        return Err(ProgramError::InvalidArgument);
    }
    let verdict = check_rent_exempt(
        &accounts[4].key,
        &accounts[4].data,
        accounts[3].lamports,
        accounts[3].data.len(),
    );
    match verdict {
        None => {
            return Err(ProgramError::InvalidArgument);
        },
        Some(false) => {
            return Err(ProgramError::from(EscrowError::NotRentExempt));
        },
        Some(true) => {},
    }
    if accounts[3].data.len() == ESCROW_LEN && accounts[3].data[0] == 1 {
        return Err(ProgramError::AccountAlreadyInitialized);
    }
    if accounts[3].data.len() < ESCROW_LEN {
        return Err(ProgramError::AccountDataTooSmall);
    }
    let (authority_key, _bump) = match find_escrow_authority(program_id) {
        Some(p) => p,
        None => {
            return Err(ProgramError::InvalidSeeds);
        },
    };
    let escrow_info = Escrow {
        is_initialized: true,
        initializer_pubkey: accounts[0].key,
        temp_token_account_pubkey: accounts[1].key,
        initializer_token_to_receive_account_pubkey: accounts[2].key,
        expected_amount: amount,
    };
    let ghost pre = accounts@;
    let mut escrow_account = accounts.remove(3);
    match escrow_info.to_account_info(&mut escrow_account) {
        Ok(_) => {},
        Err(e) => {
            // unreachable: the buffer length was checked above
            accounts.insert(3, escrow_account);
            return Err(e);
        },
    }
    accounts.insert(3, escrow_account);
    assert(forall|j: int| 0 <= j < pre.len() && j != 3 ==> accounts@[j] == pre[j]);
    let mut actions: Vec<TokenAction> = Vec::new();
    actions.push(
        TokenAction::SetAuthority {
            account: accounts[1].key,
            new_authority: authority_key,
            authority: Authority::Signer(accounts[0].key),
        },
    );
    Ok(actions)
}

/// The failure an exchange call returns, or `None` where it succeeds. The
/// checks stand strictly in this order; positions in the account list are
/// fixed: 0 acceptor, 1 acceptor's source account, 2 acceptor's destination
/// account, 3 custodied deposit account, 4 initializer's main account,
/// 5 initializer's payout destination, 6 escrow record, 7 asset-ledger
/// program, 8 derived-authority account.
pub open spec fn exchange_error(
    accounts: Seq<AccountInfo>,
    amount: u64,
    program: Seq<u8>,
) -> Option<ProgramError> {
    if accounts.len() < 9 {
        Some(ProgramError::NotEnoughAccountKeys)
    } else if !accounts[0].is_signer {
        Some(ProgramError::MissingRequiredSignature)
    } else if accounts[1].owner@ != spl_token_id_bytes() {
        Some(ProgramError::IncorrectProgramId)
    } else if accounts[2].owner@ != spl_token_id_bytes() {
        Some(ProgramError::IncorrectProgramId)
    } else {
        match token_amount_result(accounts[3].data@) {
            Result::Err(e) => Some(e),
            Result::Ok(deposit) => if !escrow_authority_exists(program) {
                Some(ProgramError::InvalidSeeds)
            } else if amount != deposit {
                Some(custom_error(EscrowError::ExpectedAmountMismatch))
            } else if !record_decodes(accounts[6].data@) {
                Some(ProgramError::InvalidAccountData)
            } else {
                let record = decoded_record(accounts[6].data@);
                if !record.is_initialized {
                    Some(ProgramError::UninitializedAccount)
                } else if accounts[5].key@ != record.initializer_token_to_receive_account_pubkey {
                    Some(ProgramError::InvalidArgument)
                } else if accounts[3].key@ != record.temp_token_account_pubkey {
                    Some(ProgramError::InvalidArgument)
                } else if accounts[4].key@ != record.initializer_pubkey {
                    Some(ProgramError::InvalidArgument)
                } else if accounts[4].lamports + accounts[6].lamports > u64::MAX {
                    Some(custom_error(EscrowError::AmountOverflow))
                } else {
                    None
                }
            },
        }
    }
}

/// What a successful exchange did: the initializer's main account is credited
/// with the record slot's whole held value, the slot is zeroed and cleared
/// for reuse, everything else is untouched, and the three ledger actions pay
/// the initializer at the recorded expected amount, release the full deposit
/// to the acceptor under the derived authority, and close the deposit
/// account back to the initializer.
pub open spec fn exchange_effects(
    old_acc: Seq<AccountInfo>,
    new_acc: Seq<AccountInfo>,
    acts: Seq<TokenAction>,
    program: Seq<u8>,
) -> bool {
    let record = decoded_record(old_acc[6].data@);
    let deposit = token_account_balance(old_acc[3].data@) as u64;
    &&& new_acc.len() == old_acc.len()
    &&& forall|j: int| 0 <= j < old_acc.len() && j != 4 && j != 6 ==> new_acc[j] == old_acc[j]
    &&& new_acc[4].key == old_acc[4].key
    &&& new_acc[4].is_signer == old_acc[4].is_signer
    &&& new_acc[4].owner == old_acc[4].owner
    &&& new_acc[4].lamports == old_acc[4].lamports + old_acc[6].lamports
    &&& new_acc[4].data@ == old_acc[4].data@
    &&& new_acc[6].key == old_acc[6].key
    &&& new_acc[6].is_signer == old_acc[6].is_signer
    &&& new_acc[6].owner == old_acc[6].owner
    &&& new_acc[6].lamports == 0
    &&& new_acc[6].data@ == Seq::<u8>::empty()
    &&& acts.len() == 3
    &&& acts[0] == (TokenAction::Transfer {
        source: old_acc[1].key,
        destination: old_acc[5].key,
        amount: record.expected_amount,
        authority: Authority::Signer(old_acc[0].key),
    })
    &&& (acts[1] matches TokenAction::Transfer { source, destination, amount, authority }
        && source == old_acc[3].key && destination == old_acc[2].key && amount == deposit && (
        authority matches Authority::Derived(k, b) && k@ == escrow_authority_key(program) && b
            == escrow_authority_bump(program)))
    &&& (acts[2] matches TokenAction::Close { account, destination, authority }
        && account == old_acc[3].key && destination == old_acc[4].key && (
        authority matches Authority::Derived(k, b) && k@ == escrow_authority_key(program) && b
            == escrow_authority_bump(program)))
}

/// Settle an escrow: validate the acceptor's claim and every account identity
/// against the persisted record, then retire the record and issue the
/// two-sided transfer and cleanup. On any failure the account list is exactly
/// as it was and no action is issued.
pub fn process_exchange(
    accounts: &mut Vec<AccountInfo>,
    amount: u64,
    program_id: &AccountId,
) -> (r: Result<Vec<TokenAction>, ProgramError>)
    ensures
        r is Err ==> final(accounts)@ == old(accounts)@,
        r matches Err(e) ==> Some(e) == exchange_error(old(accounts)@, amount, program_id@),
        r is Ok ==> exchange_error(old(accounts)@, amount, program_id@) is None,
        r matches Ok(acts) ==> exchange_effects(old(accounts)@, final(accounts)@, acts@, program_id@),
{
    if accounts.len() < 9 {
        return Err(ProgramError::NotEnoughAccountKeys);
    }
    if !accounts[0].is_signer {
        return Err(ProgramError::MissingRequiredSignature);
    }
    let token_program_id = spl_token_program_id();
    if !accounts[1].owner.eq_id(&token_program_id) {
        return Err(ProgramError::IncorrectProgramId);
    }
    if !accounts[2].owner.eq_id(&token_program_id) {
        return Err(ProgramError::IncorrectProgramId);
    }
    let deposit = match unpack_token_amount(&accounts[3].data) {
        Ok(a) => a,
        Err(e) => {
            return Err(e);
        },
    };
    let (authority_key, bump) = match find_escrow_authority(program_id) {
        Some(p) => p,
        None => {
            return Err(ProgramError::InvalidSeeds);
        },
    };
    if amount != deposit {
        return Err(ProgramError::from(EscrowError::ExpectedAmountMismatch));
    }
    let escrow_state = match Escrow::from_account_info(&accounts[6]) {
        Ok(e) => e,
        Err(e) => {
            return Err(e);
        },
    };
    if !escrow_state.is_initialized {
        return Err(ProgramError::UninitializedAccount);
    }
    if !accounts[5].key.eq_id(&escrow_state.initializer_token_to_receive_account_pubkey) {
        return Err(ProgramError::InvalidArgument);
    }
    if !accounts[3].key.eq_id(&escrow_state.temp_token_account_pubkey) {
        return Err(ProgramError::InvalidArgument);
    }
    if !accounts[4].key.eq_id(&escrow_state.initializer_pubkey) {
        return Err(ProgramError::InvalidArgument);
    }
    let credited = match accounts[4].lamports.checked_add(accounts[6].lamports) {
        Some(v) => v,
        None => {
            return Err(ProgramError::from(EscrowError::AmountOverflow));
        },
    };
    let ghost pre = accounts@;
    let mut main_account = accounts.remove(4);
    main_account.lamports = credited;
    accounts.insert(4, main_account);
    assert(forall|j: int| 0 <= j < pre.len() && j != 4 ==> accounts@[j] == pre[j]);
    let mut escrow_account = accounts.remove(6);
    escrow_account.lamports = 0;
    escrow_account.data = Vec::new();
    accounts.insert(6, escrow_account);
    assert(forall|j: int|
        0 <= j < pre.len() && j != 4 && j != 6 ==> accounts@[j] == pre[j]);
    let mut actions: Vec<TokenAction> = Vec::new();
    actions.push(
        TokenAction::Transfer {
            source: accounts[1].key,
            destination: accounts[5].key,
            amount: escrow_state.expected_amount,
            authority: Authority::Signer(accounts[0].key),
        },
    );
    actions.push(
        TokenAction::Transfer {
            source: accounts[3].key,
            destination: accounts[2].key,
            amount: deposit,
            authority: Authority::Derived(authority_key, bump),
        },
    );
    actions.push(
        TokenAction::Close {
            account: accounts[3].key,
            destination: accounts[4].key,
            authority: Authority::Derived(authority_key, bump),
        },
    );
    Ok(actions)
}

/// Init on a slot already holding a live record never succeeds; and once the
/// earlier checks pass — whatever the new parameters supplied — it fails
/// precisely as already-initialized.
pub proof fn lemma_init_rejects_initialized(accounts: Seq<AccountInfo>, program: Seq<u8>)
    requires
        accounts.len() >= 4,
        slot_initialized(accounts[3].data@),
    ensures
        init_error(accounts, program) is Some,
        (accounts.len() >= 6 && accounts[0].is_signer && accounts[2].owner@
            == spl_token_id_bytes() && rent_price_bounded(
            accounts[4].data@,
            accounts[3].data@.len(),
        ) && rent_exempt_verdict(
            accounts[4].key@,
            accounts[4].data@,
            accounts[3].lamports,
            accounts[3].data@.len(),
        ) == Some(true)) ==> init_error(accounts, program) == Some(
            ProgramError::AccountAlreadyInitialized,
        ),
{
}

/// An exchange settles only at the exact custodied quantity: success forces
/// the claimed amount to equal the deposit's held balance, and any mismatch —
/// zero, smaller or larger — fails as an expected-amount mismatch once the
/// earlier account checks pass.
pub proof fn lemma_exchange_requires_exact_amount(
    accounts: Seq<AccountInfo>,
    amount: u64,
    program: Seq<u8>,
)
    ensures
        exchange_error(accounts, amount, program) is None ==> (token_amount_result(
            accounts[3].data@,
        ) matches Ok(deposit) && amount == deposit),
        ({
            &&& accounts.len() >= 9
            &&& accounts[0].is_signer
            &&& accounts[1].owner@ == spl_token_id_bytes()
            &&& accounts[2].owner@ == spl_token_id_bytes()
            &&& escrow_authority_exists(program)
            &&& token_amount_result(accounts[3].data@) matches Ok(deposit) && amount != deposit
        }) ==> exchange_error(accounts, amount, program) == Some(
            custom_error(EscrowError::ExpectedAmountMismatch),
        ),
{
}

/// Identity binding: an exchange succeeds only against exactly the accounts
/// the initializer committed to at creation — the payout destination, the
/// custodied deposit account and the initializer's main account all match the
/// persisted record; and once every earlier check passes, any substitution
/// among those three fails as an invalid argument.
pub proof fn lemma_exchange_identity_binding(
    accounts: Seq<AccountInfo>,
    amount: u64,
    program: Seq<u8>,
)
    ensures
        exchange_error(accounts, amount, program) is None ==> {
            let record = decoded_record(accounts[6].data@);
            &&& accounts[5].key@ == record.initializer_token_to_receive_account_pubkey
            &&& accounts[3].key@ == record.temp_token_account_pubkey
            &&& accounts[4].key@ == record.initializer_pubkey
        },
        ({
            &&& accounts.len() >= 9
            &&& accounts[0].is_signer
            &&& accounts[1].owner@ == spl_token_id_bytes()
            &&& accounts[2].owner@ == spl_token_id_bytes()
            &&& escrow_authority_exists(program)
            &&& token_amount_result(accounts[3].data@) matches Ok(deposit) && amount == deposit
            &&& record_decodes(accounts[6].data@)
            &&& decoded_record(accounts[6].data@).is_initialized
        }) ==> {
            let record = decoded_record(accounts[6].data@);
            &&& (accounts[5].key@ != record.initializer_token_to_receive_account_pubkey
                || accounts[3].key@ != record.temp_token_account_pubkey || accounts[4].key@
                != record.initializer_pubkey) ==> exchange_error(accounts, amount, program)
                == Some(ProgramError::InvalidArgument)
            &&& (accounts[5].key@ == record.initializer_token_to_receive_account_pubkey
                && accounts[3].key@ == record.temp_token_account_pubkey && accounts[4].key@
                == record.initializer_pubkey && accounts[4].lamports + accounts[6].lamports
                <= u64::MAX) ==> exchange_error(accounts, amount, program) is None
        },
{
}

pub struct Processor;

impl Processor {
    /// The entry contract: parse the opaque payload and dispatch. Either the
    /// chosen handler's staged effects are applied in full, or the account
    /// list is exactly as it was and a typed failure is returned.
    pub fn process(
        program_id: &AccountId,
        accounts: &mut Vec<AccountInfo>,
        instruction_data: &[u8],
    ) -> (r: Result<Vec<TokenAction>, ProgramError>)
        ensures
            r is Err ==> final(accounts)@ == old(accounts)@,
            !payload_parses(instruction_data@) ==> r == Err::<Vec<TokenAction>, ProgramError>(
                custom_error(EscrowError::InvalidInstruction),
            ),
            payload_parses(instruction_data@) ==> (parsed_instruction(instruction_data@) matches
                EscrowInstruction::InitEscrow { amount } ==> {
                &&& r matches Err(e) ==> Some(e) == init_error(old(accounts)@, program_id@)
                &&& r is Ok <==> init_error(old(accounts)@, program_id@) is None
                &&& r matches Ok(acts) ==> init_effects(
                    old(accounts)@,
                    final(accounts)@,
                    acts@,
                    amount,
                    program_id@,
                )
            }),
            payload_parses(instruction_data@) ==> (parsed_instruction(instruction_data@) matches
                EscrowInstruction::Exchange { amount } ==> {
                &&& r matches Err(e) ==> Some(e) == exchange_error(
                    old(accounts)@,
                    amount,
                    program_id@,
                )
                &&& r is Ok <==> exchange_error(old(accounts)@, amount, program_id@) is None
                &&& r matches Ok(acts) ==> exchange_effects(
                    old(accounts)@,
                    final(accounts)@,
                    acts@,
                    program_id@,
                )
            }),
    {
        let instruction = match EscrowInstruction::unpack(instruction_data) {
            Ok(i) => i,
            Err(e) => {
                return Err(e);
            },
        };
        match instruction {
            EscrowInstruction::InitEscrow { amount } => process_init_escrow(
                accounts,
                amount,
                program_id,
            ),
            EscrowInstruction::Exchange { amount } => process_exchange(accounts, amount, program_id),
        }
    }
}

} // verus!
