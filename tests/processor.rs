use token_create::error::ProgramError;
use token_create::processor::{AccountInfo, AccountOwner, Action, Processor};
use token_create::pubkey::Pubkey;
use token_create::state::{TokenData, RECORD_LEN};

fn key(b: u8) -> Pubkey {
    Pubkey::new_from_array([b; 32])
}

fn account(k: u8, is_signer: bool, data: Vec<u8>) -> AccountInfo {
    AccountInfo { key: key(k), is_signer, data }
}

const PROGRAM: u8 = 0x10;
const SIGNER: u8 = 0x20;
const OTHER: u8 = 0x21;
const RECORD: u8 = 0x30;
const MINT: u8 = 0x40;
const TOKEN: u8 = 0x50;
const MINT_ACCOUNT: u8 = 0x60;
const LEDGER: u8 = 0x70;
const SYSTEM: u8 = 0x80;

fn ix(tag: u8, value: u64) -> Vec<u8> {
    let mut v = vec![tag];
    v.extend_from_slice(&value.to_le_bytes());
    v
}

/// Runs CreateToken with `decimals` and returns the record account's bytes.
fn created_record(decimals: u64) -> Vec<u8> {
    let accounts = vec![
        account(SIGNER, true, vec![]),
        account(RECORD, false, vec![]),
        account(MINT, false, vec![]),
        account(SYSTEM, false, vec![]),
    ];
    let steps = Processor::process(&key(PROGRAM), &accounts, &ix(0, decimals)).unwrap();
    let mut data = vec![0u8; RECORD_LEN];
    match steps[1] {
        Action::InitializeRecord { decimal, mint, authority, .. } => {
            Processor::init_record(&mut data, decimal, mint, authority).unwrap();
        }
        _ => panic!("second step is not the record write"),
    }
    data
}

fn user_accounts(signer: u8, record: Vec<u8>) -> Vec<AccountInfo> {
    vec![
        account(signer, true, vec![]),
        account(TOKEN, false, vec![]),
        account(RECORD, false, record),
        account(LEDGER, false, vec![]),
    ]
}

#[test]
fn create_token_steps() {
    let accounts = vec![
        account(SIGNER, true, vec![]),
        account(RECORD, false, vec![]),
        account(MINT, false, vec![]),
        account(SYSTEM, false, vec![]),
    ];
    let steps = Processor::process(&key(PROGRAM), &accounts, &ix(0, 6)).unwrap();
    assert_eq!(
        steps,
        vec![
            Action::CreateAccount {
                payer: key(SIGNER),
                account: key(RECORD),
                lamports: 1_398_960,
                space: 73,
                owner: AccountOwner::Program(key(PROGRAM)),
            },
            Action::InitializeRecord { account: key(RECORD), decimal: 6, mint: key(MINT), authority: key(SIGNER) },
        ]
    );
}

#[test]
fn create_token_record_decodes() {
    let data = created_record(6);
    assert_eq!(
        TokenData::unpack(&data),
        Ok(TokenData { is_initialized: true, decimal: 6, mint: key(MINT), initializer: key(SIGNER) })
    );
}

#[test]
fn create_token_twice_fails() {
    let mut data = created_record(6);
    let before = data.clone();
    assert_eq!(
        Processor::init_record(&mut data, 9, key(1), key(2)),
        Err(ProgramError::AccountAlreadyInitialized)
    );
    assert_eq!(data, before);
}

#[test]
fn init_record_bad_storage() {
    let mut short = vec![0u8; 72];
    assert_eq!(Processor::init_record(&mut short, 6, key(1), key(2)), Err(ProgramError::AccountDataTooSmall));
    let mut junk = vec![0u8; RECORD_LEN];
    junk[0] = 3;
    assert_eq!(Processor::init_record(&mut junk, 6, key(1), key(2)), Err(ProgramError::InvalidAccountData));
    let mut long = vec![0u8; 74];
    assert_eq!(Processor::init_record(&mut long, 6, key(1), key(2)), Err(ProgramError::InvalidAccountData));
}

#[test]
fn create_token_needs_signer_and_accounts() {
    let unsigned = vec![
        account(SIGNER, false, vec![]),
        account(RECORD, false, vec![]),
        account(MINT, false, vec![]),
        account(SYSTEM, false, vec![]),
    ];
    assert_eq!(
        Processor::process(&key(PROGRAM), &unsigned, &ix(0, 6)),
        Err(ProgramError::MissingRequiredSignature)
    );
    let few = vec![account(SIGNER, true, vec![]), account(RECORD, false, vec![])];
    assert_eq!(Processor::process(&key(PROGRAM), &few, &ix(0, 6)), Err(ProgramError::NotEnoughAccountKeys));
    assert_eq!(Processor::process(&key(PROGRAM), &[], &ix(0, 6)), Err(ProgramError::NotEnoughAccountKeys));
}

#[test]
fn create_token_rejects_wide_decimals() {
    let accounts = vec![
        account(SIGNER, true, vec![]),
        account(RECORD, false, vec![]),
        account(MINT, false, vec![]),
        account(SYSTEM, false, vec![]),
    ];
    assert_eq!(Processor::process(&key(PROGRAM), &accounts, &ix(0, 256)), Err(ProgramError::Custom(3)));
    assert!(Processor::process(&key(PROGRAM), &accounts, &ix(0, 255)).is_ok());
}

#[test]
fn mint_token_steps() {
    let record = created_record(6);
    let accounts = vec![
        account(SIGNER, true, vec![]),
        account(TOKEN, false, vec![]),
        account(RECORD, false, record),
        account(MINT_ACCOUNT, false, vec![]),
        account(LEDGER, false, vec![]),
        account(SYSTEM, false, vec![]),
    ];
    let steps = Processor::process(&key(PROGRAM), &accounts, &ix(1, 1_000_000)).unwrap();
    assert_eq!(
        steps,
        vec![
            Action::CreateAccount {
                payer: key(SIGNER),
                account: key(MINT_ACCOUNT),
                lamports: 1_461_600,
                space: 82,
                owner: AccountOwner::LedgerService,
            },
            Action::InitializeMint { mint: key(MINT), authority: key(SIGNER), decimals: 6 },
            Action::MintTo { mint: key(MINT), destination: key(TOKEN), authority: key(SIGNER), amount: 1_000_000 },
        ]
    );
}

#[test]
fn mint_token_needs_all_accounts() {
    let record = created_record(6);
    let accounts = user_accounts(SIGNER, record);
    assert_eq!(
        Processor::process(&key(PROGRAM), &accounts, &ix(1, 1_000_000)),
        Err(ProgramError::NotEnoughAccountKeys)
    );
}

#[test]
fn mint_token_rejects_wide_stored_decimals() {
    let mut record = vec![0u8; RECORD_LEN];
    TokenData::pack(
        TokenData { is_initialized: true, decimal: 300, mint: key(MINT), initializer: key(SIGNER) },
        &mut record,
    )
    .unwrap();
    let mut accounts = user_accounts(SIGNER, record);
    accounts.push(account(SYSTEM, false, vec![]));
    accounts.push(account(SYSTEM, false, vec![]));
    assert_eq!(Processor::process(&key(PROGRAM), &accounts, &ix(1, 1)), Err(ProgramError::Custom(3)));
}

#[test]
fn add_token_by_other_signer_fails() {
    let record = created_record(6);
    let accounts = user_accounts(OTHER, record);
    assert_eq!(Processor::process(&key(PROGRAM), &accounts, &ix(2, 10)), Err(ProgramError::Custom(0)));
}

#[test]
fn other_signer_fails_for_every_amount() {
    let record = created_record(6);
    let mut accounts = user_accounts(OTHER, record);
    accounts.push(account(SYSTEM, false, vec![]));
    accounts.push(account(SYSTEM, false, vec![]));
    for amount in [0u64, 1, 500, u64::MAX] {
        for tag in 1u8..=3 {
            assert_eq!(Processor::process(&key(PROGRAM), &accounts, &ix(tag, amount)), Err(ProgramError::Custom(0)));
        }
    }
}

#[test]
fn add_token_steps() {
    let record = created_record(6);
    let accounts = user_accounts(SIGNER, record);
    assert_eq!(
        Processor::process(&key(PROGRAM), &accounts, &ix(2, 42)),
        Ok(vec![Action::MintTo { mint: key(MINT), destination: key(TOKEN), authority: key(SIGNER), amount: 42 }])
    );
}

#[test]
fn burn_steps() {
    let record = created_record(6);
    let accounts = user_accounts(SIGNER, record);
    assert_eq!(
        Processor::process(&key(PROGRAM), &accounts, &ix(3, 500)),
        Ok(vec![Action::Burn { source: key(TOKEN), mint: key(MINT), authority: key(SIGNER), amount: 500 }])
    );
}

#[test]
fn user_operations_check_signer_and_record() {
    let record = created_record(6);
    let mut unsigned = user_accounts(SIGNER, record.clone());
    unsigned[0].is_signer = false;
    assert_eq!(Processor::process_burn(&unsigned, 1, &key(PROGRAM)), Err(ProgramError::MissingRequiredSignature));
    let fresh = user_accounts(SIGNER, vec![0u8; RECORD_LEN]);
    assert_eq!(Processor::process_add_mint(&fresh, 1, &key(PROGRAM)), Err(ProgramError::UninitializedAccount));
    let two = vec![account(SIGNER, true, vec![]), account(TOKEN, false, vec![])];
    assert_eq!(Processor::process_burn(&two, 1, &key(PROGRAM)), Err(ProgramError::NotEnoughAccountKeys));
    let three = vec![
        account(SIGNER, true, vec![]),
        account(TOKEN, false, vec![]),
        account(RECORD, false, record),
    ];
    assert_eq!(Processor::process_add_mint(&three, 1, &key(PROGRAM)), Err(ProgramError::NotEnoughAccountKeys));
}

#[test]
fn process_rejects_bad_instruction() {
    let record = created_record(6);
    let accounts = user_accounts(SIGNER, record);
    assert_eq!(Processor::process(&key(PROGRAM), &accounts, &[9, 0, 0, 0, 0, 0, 0, 0, 0]), Err(ProgramError::Custom(0)));
    assert_eq!(Processor::process(&key(PROGRAM), &accounts, &[2, 1]), Err(ProgramError::Custom(0)));
}
