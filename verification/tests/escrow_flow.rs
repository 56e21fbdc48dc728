//! Handler behaviour end to end: init and exchange against a small
//! transactional token-ledger simulation that applies the returned actions
//! all-or-nothing, as the host would.

use std::collections::HashMap;

use escrow::accounts::{AccountId, AccountInfo, Authority, TokenAction};
use escrow::error::ProgramError;
use escrow::ledger::derive_authority;
use escrow::processor::{process_exchange, process_init_escrow, Processor};
use escrow::state::ESCROW_LEN;
use solana_program::program_option::COption;
use solana_program::program_pack::Pack;
use solana_program::pubkey::Pubkey;
use solana_program::rent::Rent;
use spl_token::state::{Account as TokenAccount, AccountState};

fn key(n: u8) -> AccountId {
    AccountId::new([n; 32])
}

fn spl_owner() -> AccountId {
    AccountId::new(spl_token::id().to_bytes())
}

fn token_data(amount: u64) -> Vec<u8> {
    let account = TokenAccount {
        mint: Pubkey::new_from_array([0xAA; 32]),
        owner: Pubkey::new_from_array([0xBB; 32]),
        amount,
        delegate: COption::None,
        state: AccountState::Initialized,
        is_native: COption::None,
        delegated_amount: 0,
        close_authority: COption::None,
    };
    let mut buf = vec![0u8; TokenAccount::LEN];
    TokenAccount::pack(account, &mut buf).unwrap();
    buf
}

fn plain(k: AccountId, is_signer: bool) -> AccountInfo {
    AccountInfo { key: k, is_signer, owner: key(0), lamports: 0, data: Vec::new() }
}

fn token_account(k: AccountId, amount: u64) -> AccountInfo {
    AccountInfo { key: k, is_signer: false, owner: spl_owner(), lamports: 0, data: token_data(amount) }
}

fn rent_sysvar() -> AccountInfo {
    AccountInfo {
        key: AccountId::new(solana_program::sysvar::rent::id().to_bytes()),
        is_signer: false,
        owner: key(0),
        lamports: 0,
        data: bincode::serialize(&Rent::default()).unwrap(),
    }
}

fn min_balance() -> u64 {
    Rent::default().minimum_balance(ESCROW_LEN)
}

fn payload(tag: u8, amount: u64) -> Vec<u8> {
    let mut p = vec![tag];
    p.extend_from_slice(&amount.to_le_bytes());
    p
}

const PROGRAM: u8 = 9;
const INITIALIZER: u8 = 1;
const DEPOSIT: u8 = 2;
const PAYOUT: u8 = 3;
const ESCROW_KEY: u8 = 4;
const ACCEPTOR: u8 = 5;
const SOURCE: u8 = 6;
const ACCEPTOR_DEST: u8 = 7;

/// The six init accounts: initializer, deposit, payout destination, escrow
/// record, storage-cost oracle, asset-ledger program.
fn init_accounts() -> Vec<AccountInfo> {
    vec![
        plain(key(INITIALIZER), true),
        token_account(key(DEPOSIT), 100),
        token_account(key(PAYOUT), 0),
        AccountInfo {
            key: key(ESCROW_KEY),
            is_signer: false,
            owner: key(0),
            lamports: min_balance(),
            data: vec![0u8; ESCROW_LEN],
        },
        rent_sysvar(),
        plain(spl_owner(), false),
    ]
}

fn run_init(amount: u64) -> (Vec<AccountInfo>, Vec<TokenAction>) {
    let mut accounts = init_accounts();
    let actions = Processor::process(&key(PROGRAM), &mut accounts, &payload(0, amount)).unwrap();
    (accounts, actions)
}

/// The nine exchange accounts: acceptor, source, acceptor's destination,
/// custodied deposit, initializer main, payout destination, escrow record,
/// asset-ledger program, derived authority.
fn exchange_accounts(escrow_data: Vec<u8>) -> Vec<AccountInfo> {
    let (pda, _bump) = derive_authority(&key(PROGRAM)).unwrap();
    vec![
        plain(key(ACCEPTOR), true),
        token_account(key(SOURCE), 100),
        token_account(key(ACCEPTOR_DEST), 0),
        token_account(key(DEPOSIT), 100),
        AccountInfo { key: key(INITIALIZER), is_signer: false, owner: key(0), lamports: 50, data: Vec::new() },
        token_account(key(PAYOUT), 7),
        AccountInfo {
            key: key(ESCROW_KEY),
            is_signer: false,
            owner: key(0),
            lamports: min_balance(),
            data: escrow_data,
        },
        plain(spl_owner(), false),
        plain(pda, false),
    ]
}

/// A token ledger that applies an action list all-or-nothing, checking that
/// every action is authorized by the account's current authority.
#[derive(Clone, Debug, PartialEq)]
struct Ledger {
    balances: HashMap<[u8; 32], u64>,
    authorities: HashMap<[u8; 32], [u8; 32]>,
    fail_close: bool,
}

impl Ledger {
    fn new() -> Ledger {
        Ledger { balances: HashMap::new(), authorities: HashMap::new(), fail_close: false }
    }

    fn open(&mut self, account: AccountId, balance: u64, authority: AccountId) {
        self.balances.insert(account.0, balance);
        self.authorities.insert(account.0, authority.0);
    }

    fn authorized(&self, account: &AccountId, authority: &Authority) -> bool {
        let signer = match authority {
            Authority::Signer(k) => k.0,
            Authority::Derived(k, _bump) => k.0,
        };
        self.authorities.get(&account.0) == Some(&signer)
    }

    fn apply_one(&mut self, action: &TokenAction) -> Result<(), ()> {
        match action {
            TokenAction::SetAuthority { account, new_authority, authority } => {
                if !self.authorized(account, authority) {
                    return Err(());
                }
                self.authorities.insert(account.0, new_authority.0);
                Ok(())
            }
            TokenAction::Transfer { source, destination, amount, authority } => {
                if !self.authorized(source, authority) {
                    return Err(());
                }
                let from = *self.balances.get(&source.0).ok_or(())?;
                let to = *self.balances.get(&destination.0).ok_or(())?;
                if from < *amount {
                    return Err(());
                }
                self.balances.insert(source.0, from - *amount);
                self.balances.insert(destination.0, to + *amount);
                Ok(())
            }
            TokenAction::Close { account, destination: _, authority } => {
                if self.fail_close || !self.authorized(account, authority) {
                    return Err(());
                }
                if self.balances.get(&account.0) != Some(&0) {
                    return Err(());
                }
                self.balances.remove(&account.0);
                self.authorities.remove(&account.0);
                Ok(())
            }
        }
    }

    /// Stage the whole list; commit only if every step succeeds.
    fn apply_all(&mut self, actions: &[TokenAction]) -> Result<(), ()> {
        let mut staged = self.clone();
        for action in actions {
            staged.apply_one(action)?;
        }
        *self = staged;
        Ok(())
    }
}

#[test]
fn init_persists_record_and_delegates_custody() {
    let (accounts, actions) = run_init(100);
    let data = &accounts[3].data;
    assert_eq!(data.len(), ESCROW_LEN);
    assert_eq!(data[0], 1);
    assert_eq!(&data[1..33], &[INITIALIZER; 32]);
    assert_eq!(&data[33..65], &[DEPOSIT; 32]);
    assert_eq!(&data[65..97], &[PAYOUT; 32]);
    assert_eq!(&data[97..105], &100u64.to_le_bytes());
    let (pda, _bump) = derive_authority(&key(PROGRAM)).unwrap();
    assert_eq!(
        actions,
        vec![TokenAction::SetAuthority {
            account: key(DEPOSIT),
            new_authority: pda,
            authority: Authority::Signer(key(INITIALIZER)),
        }]
    );
}

#[test]
fn init_requires_signer() {
    let mut accounts = init_accounts();
    accounts[0].is_signer = false;
    let before = accounts.clone();
    let r = Processor::process(&key(PROGRAM), &mut accounts, &payload(0, 100));
    assert_eq!(r, Err(ProgramError::MissingRequiredSignature));
    assert_eq!(accounts, before);
}

#[test]
fn init_requires_ledger_owned_payout_account() {
    let mut accounts = init_accounts();
    accounts[2].owner = key(0xEE);
    let r = Processor::process(&key(PROGRAM), &mut accounts, &payload(0, 100));
    assert_eq!(r, Err(ProgramError::IncorrectProgramId));
}

#[test]
fn init_requires_rent_exemption() {
    let mut accounts = init_accounts();
    accounts[3].lamports = min_balance() - 1;
    let before = accounts.clone();
    let r = Processor::process(&key(PROGRAM), &mut accounts, &payload(0, 100));
    assert_eq!(r, Err(ProgramError::Custom(2)));
    assert_eq!(accounts, before);
}

#[test]
fn init_accepts_exact_rent_minimum() {
    let mut accounts = init_accounts();
    accounts[3].lamports = min_balance();
    assert!(Processor::process(&key(PROGRAM), &mut accounts, &payload(0, 100)).is_ok());
}

#[test]
fn init_rejects_overflowing_oracle_price() {
    // a per-byte-year price so large that the storage-cost computation would
    // leave 64 bits
    let mut accounts = init_accounts();
    let mut data = u64::MAX.to_le_bytes().to_vec();
    data.extend_from_slice(&2.0f64.to_le_bytes());
    data.push(50);
    accounts[4].data = data;
    let before = accounts.clone();
    let r = Processor::process(&key(PROGRAM), &mut accounts, &payload(0, 100));
    assert_eq!(r, Err(ProgramError::InvalidArgument));
    assert_eq!(accounts, before);
}

#[test]
fn init_rejects_unreadable_oracle() {
    let mut accounts = init_accounts();
    accounts[4].key = key(0xEE);
    let r = Processor::process(&key(PROGRAM), &mut accounts, &payload(0, 100));
    assert_eq!(r, Err(ProgramError::InvalidArgument));
}

#[test]
fn init_on_initialized_slot_always_fails() {
    let (after_first, _) = run_init(100);
    // a second init, with different parameters, against the same record slot
    let mut accounts = init_accounts();
    accounts[0] = plain(key(0x11), true);
    accounts[3] = after_first[3].clone();
    let before = accounts.clone();
    let r = Processor::process(&key(PROGRAM), &mut accounts, &payload(0, 7));
    assert_eq!(r, Err(ProgramError::AccountAlreadyInitialized));
    assert_eq!(accounts, before);
}

#[test]
fn init_rejects_short_record_buffer() {
    let mut accounts = init_accounts();
    accounts[3].data = vec![0u8; ESCROW_LEN - 1];
    accounts[3].lamports = min_balance();
    let r = Processor::process(&key(PROGRAM), &mut accounts, &payload(0, 100));
    assert_eq!(r, Err(ProgramError::AccountDataTooSmall));
}

#[test]
fn init_requires_all_accounts() {
    let mut accounts = init_accounts();
    accounts.pop();
    let r = Processor::process(&key(PROGRAM), &mut accounts, &payload(0, 100));
    assert_eq!(r, Err(ProgramError::NotEnoughAccountKeys));
}

#[test]
fn dispatch_rejects_unknown_instruction() {
    let mut accounts = init_accounts();
    let before = accounts.clone();
    let r = Processor::process(&key(PROGRAM), &mut accounts, &payload(2, 100));
    assert_eq!(r, Err(ProgramError::Custom(1)));
    assert_eq!(accounts, before);
}

#[test]
fn asset_ledger_identity_is_the_known_constant() {
    // the identity the handlers check owners against, byte for byte
    assert_eq!(
        spl_token::id().to_bytes(),
        [
            6u8, 221, 246, 225, 215, 101, 161, 147, 217, 203, 225, 70, 206, 235, 121, 172, 28,
            180, 133, 237, 95, 91, 55, 145, 58, 140, 245, 133, 126, 255, 0, 169,
        ]
    );
}

#[test]
fn authority_derivation_is_deterministic() {
    let a = derive_authority(&key(PROGRAM)).unwrap();
    let b = derive_authority(&key(PROGRAM)).unwrap();
    assert_eq!(a, b);
    let (expected, expected_bump) = Pubkey::find_program_address(
        &[b"escrow"],
        &Pubkey::new_from_array([PROGRAM; 32]),
    );
    assert_eq!(a.0, AccountId::new(expected.to_bytes()));
    assert_eq!(a.1, expected_bump);
}

#[test]
fn exchange_end_to_end() {
    let (after_init, init_actions) = run_init(100);

    let mut ledger = Ledger::new();
    ledger.open(key(DEPOSIT), 100, key(INITIALIZER));
    ledger.open(key(SOURCE), 100, key(ACCEPTOR));
    ledger.open(key(ACCEPTOR_DEST), 0, key(ACCEPTOR));
    ledger.open(key(PAYOUT), 7, key(INITIALIZER));
    ledger.apply_all(&init_actions).unwrap();
    let (pda, _bump) = derive_authority(&key(PROGRAM)).unwrap();
    assert_eq!(ledger.authorities[&key(DEPOSIT).0], pda.0);

    let mut accounts = exchange_accounts(after_init[3].data.clone());
    let escrow_lamports = accounts[6].lamports;
    let actions =
        Processor::process(&key(PROGRAM), &mut accounts, &payload(1, 100)).unwrap();
    assert_eq!(accounts[6].lamports, 0);
    assert!(accounts[6].data.is_empty());
    assert_eq!(accounts[4].lamports, 50 + escrow_lamports);

    ledger.apply_all(&actions).unwrap();
    assert_eq!(ledger.balances[&key(SOURCE).0], 0);
    assert_eq!(ledger.balances[&key(PAYOUT).0], 107);
    assert_eq!(ledger.balances[&key(ACCEPTOR_DEST).0], 100);
    assert!(!ledger.balances.contains_key(&key(DEPOSIT).0));
}

#[test]
fn exchange_requires_exact_amount() {
    let (after_init, _) = run_init(100);
    for wrong in [0u64, 50, 150, u64::MAX] {
        let mut accounts = exchange_accounts(after_init[3].data.clone());
        let before = accounts.clone();
        let r = Processor::process(&key(PROGRAM), &mut accounts, &payload(1, wrong));
        assert_eq!(r, Err(ProgramError::Custom(3)));
        assert_eq!(accounts, before);
    }
}

#[test]
fn exchange_binds_committed_identities() {
    let (after_init, _) = run_init(100);
    for position in [3usize, 4, 5] {
        let mut accounts = exchange_accounts(after_init[3].data.clone());
        accounts[position].key = key(0xEE);
        let before = accounts.clone();
        let r = Processor::process(&key(PROGRAM), &mut accounts, &payload(1, 100));
        assert_eq!(r, Err(ProgramError::InvalidArgument));
        assert_eq!(accounts, before);
    }
    let mut accounts = exchange_accounts(after_init[3].data.clone());
    assert!(Processor::process(&key(PROGRAM), &mut accounts, &payload(1, 100)).is_ok());
}

#[test]
fn exchange_requires_signer() {
    let (after_init, _) = run_init(100);
    let mut accounts = exchange_accounts(after_init[3].data.clone());
    accounts[0].is_signer = false;
    let r = Processor::process(&key(PROGRAM), &mut accounts, &payload(1, 100));
    assert_eq!(r, Err(ProgramError::MissingRequiredSignature));
}

#[test]
fn exchange_requires_ledger_owned_token_accounts() {
    let (after_init, _) = run_init(100);
    for position in [1usize, 2] {
        let mut accounts = exchange_accounts(after_init[3].data.clone());
        accounts[position].owner = key(0xEE);
        let r = Processor::process(&key(PROGRAM), &mut accounts, &payload(1, 100));
        assert_eq!(r, Err(ProgramError::IncorrectProgramId));
    }
}

#[test]
fn exchange_reads_delegated_deposit_account() {
    // a deposit account with delegate, delegated amount and close authority
    // set still settles: only size, tags, state and balance matter
    let (after_init, _) = run_init(100);
    let deposit = TokenAccount {
        mint: Pubkey::new_from_array([0xAA; 32]),
        owner: Pubkey::new_from_array([0xBB; 32]),
        amount: 100,
        delegate: COption::Some(Pubkey::new_from_array([0xCC; 32])),
        state: AccountState::Initialized,
        is_native: COption::None,
        delegated_amount: 5,
        close_authority: COption::Some(Pubkey::new_from_array([0xDD; 32])),
    };
    let mut buf = vec![0u8; TokenAccount::LEN];
    TokenAccount::pack(deposit, &mut buf).unwrap();
    let mut accounts = exchange_accounts(after_init[3].data.clone());
    accounts[3].data = buf;
    assert!(Processor::process(&key(PROGRAM), &mut accounts, &payload(1, 100)).is_ok());

    // and a malformed close-authority tag is rejected as invalid data
    let mut accounts = exchange_accounts(after_init[3].data.clone());
    accounts[3].data[129] = 2;
    let r = Processor::process(&key(PROGRAM), &mut accounts, &payload(1, 100));
    assert_eq!(r, Err(ProgramError::InvalidAccountData));
}

#[test]
fn exchange_rejects_malformed_deposit_account() {
    let (after_init, _) = run_init(100);
    let mut accounts = exchange_accounts(after_init[3].data.clone());
    accounts[3].data = vec![0u8; 10];
    let r = Processor::process(&key(PROGRAM), &mut accounts, &payload(1, 100));
    assert_eq!(r, Err(ProgramError::InvalidAccountData));

    let mut accounts = exchange_accounts(after_init[3].data.clone());
    accounts[3].data = vec![0u8; 165];
    let r = Processor::process(&key(PROGRAM), &mut accounts, &payload(1, 100));
    assert_eq!(r, Err(ProgramError::UninitializedAccount));
}

#[test]
fn exchange_requires_initialized_record() {
    let (after_init, _) = run_init(100);
    let mut cleared = after_init[3].data.clone();
    cleared[0] = 0;
    let mut accounts = exchange_accounts(cleared);
    let r = Processor::process(&key(PROGRAM), &mut accounts, &payload(1, 100));
    assert_eq!(r, Err(ProgramError::UninitializedAccount));

    let mut accounts = exchange_accounts(vec![0u8; ESCROW_LEN - 1]);
    let r = Processor::process(&key(PROGRAM), &mut accounts, &payload(1, 100));
    assert_eq!(r, Err(ProgramError::InvalidAccountData));
}

#[test]
fn exchange_rejects_lamport_overflow() {
    let (after_init, _) = run_init(100);
    let mut accounts = exchange_accounts(after_init[3].data.clone());
    accounts[4].lamports = u64::MAX;
    let before = accounts.clone();
    let r = Processor::process(&key(PROGRAM), &mut accounts, &payload(1, 100));
    assert_eq!(r, Err(ProgramError::Custom(4)));
    assert_eq!(accounts, before);
}

#[test]
fn exchange_requires_all_accounts() {
    let (after_init, _) = run_init(100);
    let mut accounts = exchange_accounts(after_init[3].data.clone());
    accounts.pop();
    let r = Processor::process(&key(PROGRAM), &mut accounts, &payload(1, 100));
    assert_eq!(r, Err(ProgramError::NotEnoughAccountKeys));
}

#[test]
fn failed_settlement_leaves_no_partial_transfer() {
    let (after_init, init_actions) = run_init(100);

    let mut ledger = Ledger::new();
    ledger.open(key(DEPOSIT), 100, key(INITIALIZER));
    ledger.open(key(SOURCE), 100, key(ACCEPTOR));
    ledger.open(key(ACCEPTOR_DEST), 0, key(ACCEPTOR));
    ledger.open(key(PAYOUT), 7, key(INITIALIZER));
    ledger.apply_all(&init_actions).unwrap();

    let mut accounts = exchange_accounts(after_init[3].data.clone());
    let actions =
        Processor::process(&key(PROGRAM), &mut accounts, &payload(1, 100)).unwrap();

    // the last collaborator call (closing the deposit account) fails: no
    // earlier transfer of the same invocation may remain visible
    ledger.fail_close = true;
    let before = ledger.clone();
    assert!(ledger.apply_all(&actions).is_err());
    assert_eq!(ledger, before);
}

#[test]
fn handlers_callable_directly() {
    let mut accounts = init_accounts();
    let actions = process_init_escrow(&mut accounts, 100, &key(PROGRAM)).unwrap();
    assert_eq!(actions.len(), 1);
    let mut accounts = exchange_accounts(accounts[3].data.clone());
    let actions = process_exchange(&mut accounts, 100, &key(PROGRAM)).unwrap();
    assert_eq!(actions.len(), 3);
}
