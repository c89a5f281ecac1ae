use vstd::prelude::*;
use solana_program::program_pack::Pack;

verus! {

/// Largest account size the host allocates, in bytes.
pub const MAX_ACCOUNT_LEN: usize = 10485760;

/// Relies on solana_program's `Rent::default().minimum_balance`: with the default
/// rates (3480 lamports per byte-year, a two-year threshold, 128 bytes of account
/// overhead) the balance that makes an account of `len` bytes rent exempt.
#[verifier::external_body]
pub(crate) fn rent_exempt_balance(len: usize) -> (r: u64)
    requires
        len <= MAX_ACCOUNT_LEN,
    ensures
        r == (128 + len) * 3480 * 2,
{
    solana_program::rent::Rent::default().minimum_balance(len)
}

/// Relies on spl_token's `Mint::LEN`: the size of the ledger service's mint account.
#[verifier::external_body]
pub(crate) fn mint_account_len() -> (r: usize)
    ensures
        r == 82,
{
    spl_token::state::Mint::LEN
}

} // verus!
