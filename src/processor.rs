use vstd::prelude::*;

use crate::error::{custom, ProgramError, TokenCreateError};
use crate::instruction::{spec_unpack, TokenCreateInstruction};
use crate::ledger::{mint_account_len, rent_exempt_balance};
use crate::pubkey::Pubkey;
use crate::state::{lemma_record_round_trip, spec_pack_record, spec_unpack_initialized, spec_unpack_record, TokenData, RECORD_LEN};

verus! {

/// Size in bytes of the ledger service's mint account.
pub const MINT_LEN: u64 = 82;

/// Largest number of decimal places the ledger service takes (it holds them in a byte).
pub const MAX_DECIMALS: u64 = 255;

/// An account handed to the program, in the position the operation expects it.
#[derive(Debug, Clone)]
pub struct AccountInfo {
    pub key: Pubkey,
    /// Whether the transaction carries this account's signature.
    pub is_signer: bool,
    /// The account's stored bytes.
    pub data: Vec<u8>,
}

/// The owner given to a newly created account.
#[derive(Debug, Clone, Copy, PartialEq)]
pub enum AccountOwner {
    /// The program itself, by its id.
    Program(Pubkey),
    /// The external ledger service.
    LedgerService,
}

/// One step that the host carries out for an operation; the steps of an operation
/// are carried out in order, and the first that fails aborts the whole operation.
#[derive(Debug, Clone, Copy, PartialEq)]
pub enum Action {
    /// Ask the system allocator to create `account`, funded by `payer`.
    CreateAccount { payer: Pubkey, account: Pubkey, lamports: u64, space: u64, owner: AccountOwner },
    /// Write a new configuration record into `account` (see `Processor::init_record`).
    InitializeRecord { account: Pubkey, decimal: u64, mint: Pubkey, authority: Pubkey },
    /// Ledger service: initialize `mint` with `authority` and no freeze authority.
    InitializeMint { mint: Pubkey, authority: Pubkey, decimals: u8 },
    /// Ledger service: credit `amount` units of `mint` to `destination`.
    MintTo { mint: Pubkey, destination: Pubkey, authority: Pubkey, amount: u64 },
    /// Ledger service: remove `amount` units of `mint` from `source`.
    Burn { source: Pubkey, mint: Pubkey, authority: Pubkey, amount: u64 },
}

/// The rent-exempt balance of an account of `len` bytes.
pub open spec fn spec_rent(len: int) -> int {
    (128 + len) * 3480 * 2
}

/// The steps of CreateToken on accounts [signer, record, mint, system allocator].
pub open spec fn spec_init_token_state(accounts: Seq<AccountInfo>, arg: u64, program_id: Pubkey) -> Result<
    Seq<Action>,
    ProgramError,
> {
    if accounts.len() < 1 {
        Err(ProgramError::NotEnoughAccountKeys)
    } else if !accounts[0].is_signer {
        Err(ProgramError::MissingRequiredSignature)
    } else if accounts.len() < 4 {
        Err(ProgramError::NotEnoughAccountKeys)
    } else if arg > MAX_DECIMALS {
        Err(custom(TokenCreateError::AmountOverflow))
    } else {
        Ok(
            seq![
                Action::CreateAccount {
                    payer: accounts[0].key,
                    account: accounts[1].key,
                    lamports: spec_rent(RECORD_LEN as int) as u64,
                    space: RECORD_LEN as u64,
                    owner: AccountOwner::Program(program_id),
                },
                Action::InitializeRecord {
                    account: accounts[1].key,
                    decimal: arg,
                    mint: accounts[2].key,
                    authority: accounts[0].key,
                },
            ],
        )
    }
}

/// The record of accounts [signer, token account, record, ...] when the signer is its
/// authority; `n` is how many accounts the operation takes.
pub open spec fn spec_authorized(accounts: Seq<AccountInfo>, n: int) -> Result<TokenData, ProgramError> {
    if accounts.len() < 1 {
        Err(ProgramError::NotEnoughAccountKeys)
    } else if !accounts[0].is_signer {
        Err(ProgramError::MissingRequiredSignature)
    } else if accounts.len() < 3 {
        Err(ProgramError::NotEnoughAccountKeys)
    } else {
        match spec_unpack_initialized(accounts[2].data@) {
            Err(e) => Err(e),
            Ok(d) => if accounts[0].key@ != d.initializer@ {
                Err(custom(TokenCreateError::InvalidInstruction))
            } else if accounts.len() < n {
                Err(ProgramError::NotEnoughAccountKeys)
            } else {
                Ok(d)
            },
        }
    }
}

/// The steps of MintToken on accounts [signer, recipient token account, record, mint
/// account, ledger service, system allocator].
pub open spec fn spec_mint_token(accounts: Seq<AccountInfo>, amount: u64) -> Result<Seq<Action>, ProgramError> {
    match spec_authorized(accounts, 6) {
        Err(e) => Err(e),
        Ok(d) => if d.decimal > MAX_DECIMALS {
            Err(custom(TokenCreateError::AmountOverflow))
        } else {
            Ok(
                seq![
                    Action::CreateAccount {
                        payer: accounts[0].key,
                        account: accounts[3].key,
                        lamports: spec_rent(MINT_LEN as int) as u64,
                        space: MINT_LEN,
                        owner: AccountOwner::LedgerService,
                    },
                    Action::InitializeMint { mint: d.mint, authority: accounts[0].key, decimals: d.decimal as u8 },
                    Action::MintTo { mint: d.mint, destination: accounts[1].key, authority: accounts[0].key, amount },
                ],
            )
        },
    }
}

/// The steps of AddToken on accounts [signer, token account, record, ledger service].
pub open spec fn spec_add_mint(accounts: Seq<AccountInfo>, amount: u64) -> Result<Seq<Action>, ProgramError> {
    match spec_authorized(accounts, 4) {
        Err(e) => Err(e),
        Ok(d) => Ok(
            seq![Action::MintTo { mint: d.mint, destination: accounts[1].key, authority: accounts[0].key, amount }],
        ),
    }
}

/// The steps of Burn on accounts [signer, token account, record, ledger service].
pub open spec fn spec_burn(accounts: Seq<AccountInfo>, amount: u64) -> Result<Seq<Action>, ProgramError> {
    match spec_authorized(accounts, 4) {
        Err(e) => Err(e),
        Ok(d) => Ok(
            seq![Action::Burn { source: accounts[1].key, mint: d.mint, authority: accounts[0].key, amount }],
        ),
    }
}

/// The steps of the operation that `instruction_data` encodes.
pub open spec fn spec_process(program_id: Pubkey, accounts: Seq<AccountInfo>, instruction_data: Seq<u8>) -> Result<
    Seq<Action>,
    ProgramError,
> {
    match spec_unpack(instruction_data) {
        Err(e) => Err(e),
        Ok(TokenCreateInstruction::CreateToken { arg }) => spec_init_token_state(accounts, arg, program_id),
        Ok(TokenCreateInstruction::MintToken { amount }) => spec_mint_token(accounts, amount),
        Ok(TokenCreateInstruction::AddToken { amount }) => spec_add_mint(accounts, amount),
        Ok(TokenCreateInstruction::Burn { amount }) => spec_burn(accounts, amount),
    }
}

/// The account bytes after a new record is written into `data`.
pub open spec fn spec_init_record(data: Seq<u8>, decimal: u64, mint: Pubkey, authority: Pubkey) -> Result<
    Seq<u8>,
    ProgramError,
> {
    match spec_unpack_record(data) {
        Err(e) => Err(e),
        Ok(d) => if d.is_initialized {
            Err(ProgramError::AccountAlreadyInitialized)
        } else if data.len() != RECORD_LEN {
            Err(ProgramError::InvalidAccountData)
        } else {
            Ok(
                spec_pack_record(
                    TokenData { is_initialized: true, decimal, mint, initializer: authority },
                ),
            )
        },
    }
}

/// `r` is the executable form of `s`.
pub open spec fn same_steps(r: Result<Vec<Action>, ProgramError>, s: Result<Seq<Action>, ProgramError>) -> bool {
    match s {
        Ok(steps) => r matches Ok(v) && v@ == steps,
        Err(e) => r == Err::<Vec<Action>, ProgramError>(e),
    }
}

/// Decides each operation of the program.
pub struct Processor;

impl Processor {
    /// Decodes `instruction_data` and returns the steps of that operation.
    pub fn process(program_id: &Pubkey, accounts: &[AccountInfo], instruction_data: &[u8]) -> (r: Result<
        Vec<Action>,
        ProgramError,
    >)
        ensures
            same_steps(r, spec_process(*program_id, accounts@, instruction_data@)),
    {
        let instruction = TokenCreateInstruction::unpack(instruction_data)?;
        match instruction {
            TokenCreateInstruction::CreateToken { arg } => Self::process_init_token_state(accounts, arg, program_id),
            TokenCreateInstruction::MintToken { amount } => Self::process_mint_token(accounts, amount, program_id),
            TokenCreateInstruction::AddToken { amount } => Self::process_add_mint(accounts, amount, program_id),
            TokenCreateInstruction::Burn { amount } => Self::process_burn(accounts, amount, program_id),
        }
    }

    /// CreateToken: allocate the record account, then write a new record into it.
    /// Decimal places that do not fit a byte are rejected.
    pub fn process_init_token_state(accounts: &[AccountInfo], arg: u64, program_id: &Pubkey) -> (r: Result<
        Vec<Action>,
        ProgramError,
    >)
        ensures
            same_steps(r, spec_init_token_state(accounts@, arg, *program_id)),
    {
        if accounts.len() < 1 {
            return Err(ProgramError::NotEnoughAccountKeys);
        }
        let initializer = &accounts[0];
        if !initializer.is_signer {
            return Err(ProgramError::MissingRequiredSignature);
        }
        if accounts.len() < 4 {
            return Err(ProgramError::NotEnoughAccountKeys);
        }
        let token_state_account = &accounts[1];
        let mint_key = &accounts[2];
        if arg > MAX_DECIMALS {
            return Err(TokenCreateError::AmountOverflow.into());
        }
        let lamports = rent_exempt_balance(RECORD_LEN);
        let mut steps: Vec<Action> = Vec::new();
        steps.push(
            Action::CreateAccount {
                payer: initializer.key,
                account: token_state_account.key,
                lamports,
                space: RECORD_LEN as u64,
                owner: AccountOwner::Program(*program_id),
            },
        );
        steps.push(
            Action::InitializeRecord {
                account: token_state_account.key,
                decimal: arg,
                mint: mint_key.key,
                authority: initializer.key,
            },
        );
        assert(steps@ =~= spec_init_token_state(accounts@, arg, *program_id)->Ok_0);
        Ok(steps)
    }

    /// Checks the signer of accounts [signer, token account, record, ...] against the
    /// record's authority, and that at least `n` accounts were passed.
    fn authorized(accounts: &[AccountInfo], n: usize) -> (r: Result<TokenData, ProgramError>)
        ensures
            r == spec_authorized(accounts@, n as int),
    {
        if accounts.len() < 1 {
            return Err(ProgramError::NotEnoughAccountKeys);
        }
        let user = &accounts[0];
        if !user.is_signer {
            return Err(ProgramError::MissingRequiredSignature);
        }
        if accounts.len() < 3 {
            return Err(ProgramError::NotEnoughAccountKeys);
        }
        let token_state_account = &accounts[2];
        let token_info = TokenData::unpack(token_state_account.data.as_slice())?;
        if user.key != token_info.initializer {
            return Err(TokenCreateError::InvalidInstruction.into());
        }
        if accounts.len() < n {
            return Err(ProgramError::NotEnoughAccountKeys);
        }
        Ok(token_info)
    }

    /// MintToken: allocate the mint account (the fourth account, sized for the ledger
    /// service's mint), initialize the mint with the ledger service, and mint `amount`
    /// units to the recipient. Stored decimal places that do not fit a byte are
    /// rejected rather than truncated.
    pub fn process_mint_token(accounts: &[AccountInfo], amount: u64, program_id: &Pubkey) -> (r: Result<
        Vec<Action>,
        ProgramError,
    >)
        ensures
            same_steps(r, spec_mint_token(accounts@, amount)),
    {
        let token_info = Self::authorized(accounts, 6)?;
        if token_info.decimal > MAX_DECIMALS {
            return Err(TokenCreateError::AmountOverflow.into());
        }
        let user = &accounts[0];
        let token_account = &accounts[1];
        let mint_account = &accounts[3];
        let space = mint_account_len();
        let lamports = rent_exempt_balance(space);
        let mut steps: Vec<Action> = Vec::new();
        steps.push(
            Action::CreateAccount {
                payer: user.key,
                account: mint_account.key,
                lamports,
                space: space as u64,
                owner: AccountOwner::LedgerService,
            },
        );
        steps.push(
            Action::InitializeMint { mint: token_info.mint, authority: user.key, decimals: token_info.decimal as u8 },
        );
        steps.push(
            Action::MintTo { mint: token_info.mint, destination: token_account.key, authority: user.key, amount },
        );
        assert(steps@ =~= spec_mint_token(accounts@, amount)->Ok_0);
        Ok(steps)
    }

    /// AddToken: mint `amount` more units to the token account.
    pub fn process_add_mint(accounts: &[AccountInfo], amount: u64, program_id: &Pubkey) -> (r: Result<
        Vec<Action>,
        ProgramError,
    >)
        ensures
            same_steps(r, spec_add_mint(accounts@, amount)),
    {
        let token_info = Self::authorized(accounts, 4)?;
        let mut steps: Vec<Action> = Vec::new();
        steps.push(
            Action::MintTo { mint: token_info.mint, destination: accounts[1].key, authority: accounts[0].key, amount },
        );
        assert(steps@ =~= spec_add_mint(accounts@, amount)->Ok_0);
        Ok(steps)
    }

    /// Burn: remove `amount` units from the token account.
    pub fn process_burn(accounts: &[AccountInfo], amount: u64, program_id: &Pubkey) -> (r: Result<
        Vec<Action>,
        ProgramError,
    >)
        ensures
            same_steps(r, spec_burn(accounts@, amount)),
    {
        let token_info = Self::authorized(accounts, 4)?;
        let mut steps: Vec<Action> = Vec::new();
        steps.push(
            Action::Burn { source: accounts[1].key, mint: token_info.mint, authority: accounts[0].key, amount },
        );
        assert(steps@ =~= spec_burn(accounts@, amount)->Ok_0);
        Ok(steps)
    }

    /// Writes a new record into freshly allocated account bytes; fails without
    /// writing if they already hold an initialized record.
    pub fn init_record(data: &mut [u8], decimal: u64, mint: Pubkey, authority: Pubkey) -> (r: Result<
        (),
        ProgramError,
    >)
        ensures
            match spec_init_record(old(data)@, decimal, mint, authority) {
                Ok(b) => r is Ok && final(data)@ == b,
                Err(e) => r == Err::<(), ProgramError>(e) && final(data)@ == old(data)@,
            },
    {
        let mut token_info = TokenData::unpack_unchecked(data)?;
        if token_info.is_initialized() {
            return Err(ProgramError::AccountAlreadyInitialized);
        }
        token_info.is_initialized = true;
        token_info.decimal = decimal;
        token_info.mint = mint;
        token_info.initializer = authority;
        TokenData::pack(token_info, data)
    }
}

/// MintToken, AddToken and Burn signed by anyone but the record's authority fail with
/// an invalid-instruction error, whatever the amount, and so ask the ledger service
/// for nothing.
pub proof fn lemma_only_authority(accounts: Seq<AccountInfo>, amount: u64)
    requires
        accounts.len() >= 3,
        accounts[0].is_signer,
        spec_unpack_initialized(accounts[2].data@) is Ok,
        accounts[0].key@ != spec_unpack_initialized(accounts[2].data@)->Ok_0.initializer@,
    ensures
        spec_mint_token(accounts, amount) == Err::<Seq<Action>, ProgramError>(
            custom(TokenCreateError::InvalidInstruction),
        ),
        spec_add_mint(accounts, amount) == Err::<Seq<Action>, ProgramError>(
            custom(TokenCreateError::InvalidInstruction),
        ),
        spec_burn(accounts, amount) == Err::<Seq<Action>, ProgramError>(
            custom(TokenCreateError::InvalidInstruction),
        ),
{
}

/// A record written by `init_record` decodes to exactly the values it was given, and
/// writing a new record over it fails with `AccountAlreadyInitialized`.
pub proof fn lemma_init_record_once(
    data: Seq<u8>,
    decimal: u64,
    mint: Pubkey,
    authority: Pubkey,
    decimal2: u64,
    mint2: Pubkey,
    authority2: Pubkey,
)
    requires
        spec_init_record(data, decimal, mint, authority) is Ok,
    ensures
        ({
            let b = spec_init_record(data, decimal, mint, authority)->Ok_0;
            &&& spec_unpack_initialized(b) == Ok::<TokenData, ProgramError>(
                TokenData { is_initialized: true, decimal, mint, initializer: authority },
            )
            &&& spec_init_record(b, decimal2, mint2, authority2) == Err::<Seq<u8>, ProgramError>(
                ProgramError::AccountAlreadyInitialized,
            )
        }),
{
    let d = TokenData { is_initialized: true, decimal, mint, initializer: authority };
    let b = spec_pack_record(d);
    lemma_record_round_trip(d, Seq::<u8>::empty());
    assert(b + Seq::<u8>::empty() == b);
}

} // verus!
