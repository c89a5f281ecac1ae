use vstd::prelude::*;
use vstd::bytes::{spec_u64_from_le_bytes, spec_u64_to_le_bytes, u64_from_le_bytes, u64_to_le_bytes};
use vstd::slice::slice_subrange;

use crate::error::ProgramError;
use crate::pubkey::Pubkey;

verus! {

/// Size in bytes of a stored configuration record.
pub const RECORD_LEN: usize = 73;

/// The configuration record of one token deployment.
#[derive(Debug, Clone, Copy)]
pub struct TokenData {
    /// Set once, when the record is created.
    pub is_initialized: bool,
    /// Decimal places handed to the ledger service when the mint is initialized.
    pub decimal: u64,
    /// The mint registered with the ledger service.
    pub mint: Pubkey,
    /// The only signer allowed to mint, add or burn.
    pub initializer: Pubkey,
}

impl PartialEq for TokenData {
    fn eq(&self, other: &TokenData) -> (r: bool) {
        self.is_initialized == other.is_initialized && self.decimal == other.decimal
            && self.mint == other.mint && self.initializer == other.initializer
    }
}

impl vstd::std_specs::cmp::PartialEqSpecImpl for TokenData {
    open spec fn obeys_eq_spec() -> bool {
        true
    }

    open spec fn eq_spec(&self, other: &TokenData) -> bool {
        self.is_initialized == other.is_initialized && self.decimal == other.decimal
            && self.mint@ == other.mint@ && self.initializer@ == other.initializer@
    }
}

/// The stored form of a record: the initialized flag as one byte (0 or 1), the
/// decimal places as eight little-endian bytes, then the two keys.
pub open spec fn spec_pack_record(d: TokenData) -> Seq<u8> {
    seq![if d.is_initialized { 1u8 } else { 0u8 }] + spec_u64_to_le_bytes(d.decimal) + d.mint@
        + d.initializer@
}

/// The record that account bytes hold: their first 73 bytes are its stored form.
pub open spec fn spec_unpack_record(b: Seq<u8>) -> Result<TokenData, ProgramError> {
    if b.len() < RECORD_LEN {
        Err(ProgramError::AccountDataTooSmall)
    } else if b[0] > 1 {
        Err(ProgramError::InvalidAccountData)
    } else {
        Ok(choose|d: TokenData| spec_pack_record(d) == b.subrange(0, RECORD_LEN as int))
    }
}

/// Like `spec_unpack_record`, but only an initialized record is accepted.
pub open spec fn spec_unpack_initialized(b: Seq<u8>) -> Result<TokenData, ProgramError> {
    match spec_unpack_record(b) {
        Ok(d) => if d.is_initialized {
            Ok(d)
        } else {
            Err(ProgramError::UninitializedAccount)
        },
        Err(e) => Err(e),
    }
}

proof fn lemma_pack_record_len(d: TokenData)
    ensures
        spec_pack_record(d).len() == RECORD_LEN,
{
    vstd::bytes::lemma_auto_spec_u64_to_from_le_bytes();
}

/// Distinct records have distinct stored forms.
proof fn lemma_pack_record_injective(d1: TokenData, d2: TokenData)
    requires
        spec_pack_record(d1) == spec_pack_record(d2),
    ensures
        d1 == d2,
{
    vstd::bytes::lemma_auto_spec_u64_to_from_le_bytes();
    let s1 = spec_pack_record(d1);
    let s2 = spec_pack_record(d2);
    assert(s1[0] == s2[0]);
    assert(s1.subrange(1, 9) == spec_u64_to_le_bytes(d1.decimal));
    assert(s2.subrange(1, 9) == spec_u64_to_le_bytes(d2.decimal));
    assert(s1.subrange(9, 41) == d1.mint@);
    assert(s2.subrange(9, 41) == d2.mint@);
    assert(s1.subrange(41, 73) == d1.initializer@);
    assert(s2.subrange(41, 73) == d2.initializer@);
    assert(d1.mint.bytes =~= d2.mint.bytes);
    assert(d1.initializer.bytes =~= d2.initializer.bytes);
}

/// Decoding the stored form of any record gives that record back.
pub proof fn lemma_record_round_trip(d: TokenData, tail: Seq<u8>)
    ensures
        spec_unpack_record(spec_pack_record(d) + tail) == Ok::<TokenData, ProgramError>(d),
{
    lemma_pack_record_len(d);
    let b = spec_pack_record(d) + tail;
    assert(b.subrange(0, RECORD_LEN as int) == spec_pack_record(d));
    let c = choose|c: TokenData| spec_pack_record(c) == b.subrange(0, RECORD_LEN as int);
    lemma_pack_record_injective(c, d);
}

/// A buffer shorter than a record is rejected, and so is one whose first byte is
/// neither 0 nor 1.
pub proof fn lemma_unpack_record_rejects(b: Seq<u8>)
    ensures
        b.len() < RECORD_LEN ==> spec_unpack_record(b) is Err,
        b.len() >= RECORD_LEN && b[0] > 1 ==> spec_unpack_record(b) == Err::<TokenData, ProgramError>(
            ProgramError::InvalidAccountData,
        ),
{
}

/// Copies the 32 bytes at `start` into a key.
fn key_at(src: &[u8], start: usize) -> (r: Pubkey)
    requires
        start + 32 <= src@.len(),
    ensures
        r@ == src@.subrange(start as int, start + 32),
{
    let n = src.len();
    let mut bytes = [0u8; 32];
    let mut i: usize = 0;
    while i < 32
        invariant
            0 <= i <= 32,
            start + 32 <= src@.len() == n,
            forall|j: int| 0 <= j < i ==> bytes[j] == src@[start + j],
        decreases 32 - i,
    {
        bytes[i] = src[start + i];
        i = i + 1;
    }
    assert(bytes@ =~= src@.subrange(start as int, start + 32));
    Pubkey { bytes }
}

/// Writes `bytes` into `dst` from `start` on, leaving the rest of `dst` as it was.
fn write_at(dst: &mut [u8], start: usize, bytes: &[u8])
    requires
        start + bytes@.len() <= old(dst)@.len(),
    ensures
        final(dst)@ == old(dst)@.subrange(0, start as int) + bytes@ + old(dst)@.subrange(
            start + bytes@.len(),
            old(dst)@.len() as int,
        ),
{
    let n = dst.len();
    let mut i: usize = 0;
    while i < bytes.len()
        invariant
            0 <= i <= bytes@.len(),
            start + bytes@.len() <= dst@.len() == n,
            dst@.len() == old(dst)@.len(),
            forall|j: int| 0 <= j < dst@.len() && !(start <= j < start + i) ==> dst@[j] == old(dst)@[j],
            forall|j: int| 0 <= j < i ==> dst@[start + j] == bytes@[j],
        decreases bytes@.len() - i,
    {
        dst[start + i] = bytes[i];
        i = i + 1;
    }
    assert(dst@ =~= old(dst)@.subrange(0, start as int) + bytes@ + old(dst)@.subrange(
        start + bytes@.len(),
        old(dst)@.len() as int,
    ));
}

impl TokenData {
    pub const LEN: usize = 73;

    pub fn is_initialized(&self) -> (r: bool)
        ensures
            r == self.is_initialized,
    {
        self.is_initialized
    }

    /// Decodes the record stored in the first 73 bytes of `src`.
    pub fn unpack_from_slice(src: &[u8]) -> (r: Result<TokenData, ProgramError>)
        ensures
            r == spec_unpack_record(src@),
    {
        if src.len() < RECORD_LEN {
            return Err(ProgramError::AccountDataTooSmall);
        }
        let flag = src[0];
        if flag > 1 {
            return Err(ProgramError::InvalidAccountData);
        }
        let decimal = u64_from_le_bytes(slice_subrange(src, 1, 9));
        let mint = key_at(src, 9);
        let initializer = key_at(src, 41);
        let d = TokenData { is_initialized: flag == 1, decimal, mint, initializer };
        proof {
            vstd::bytes::lemma_auto_spec_u64_to_from_le_bytes();
            let b = src@.subrange(0, RECORD_LEN as int);
            assert(src@.subrange(1, 9).len() == 8);
            assert(spec_u64_to_le_bytes(decimal) == src@.subrange(1, 9));
            assert(spec_pack_record(d) =~= b);
            let c = choose|c: TokenData| spec_pack_record(c) == b;
            lemma_pack_record_injective(c, d);
        }
        Ok(d)
    }

    /// Decodes a record whatever its initialized flag says.
    pub fn unpack_unchecked(src: &[u8]) -> (r: Result<TokenData, ProgramError>)
        ensures
            r == spec_unpack_record(src@),
    {
        Self::unpack_from_slice(src)
    }

    /// Decodes a record that must already be initialized.
    pub fn unpack(src: &[u8]) -> (r: Result<TokenData, ProgramError>)
        ensures
            r == spec_unpack_initialized(src@),
    {
        let d = Self::unpack_unchecked(src)?;
        if d.is_initialized() {
            Ok(d)
        } else {
            Err(ProgramError::UninitializedAccount)
        }
    }

    /// Writes the record's stored form over the first 73 bytes of `dst`.
    pub fn pack_into_slice(&self, dst: &mut [u8])
        requires
            old(dst)@.len() >= RECORD_LEN,
        ensures
            final(dst)@ == spec_pack_record(*self) + old(dst)@.subrange(
                RECORD_LEN as int,
                old(dst)@.len() as int,
            ),
    {
        proof {
            lemma_pack_record_len(*self);
        }
        dst[0] = if self.is_initialized { 1u8 } else { 0u8 };
        let le = u64_to_le_bytes(self.decimal);
        write_at(dst, 1, le.as_slice());
        write_at(dst, 9, self.mint.bytes.as_slice());
        write_at(dst, 41, self.initializer.bytes.as_slice());
        assert(dst@ =~= spec_pack_record(*self) + old(dst)@.subrange(
            RECORD_LEN as int,
            old(dst)@.len() as int,
        ));
    }

    /// Stores `src` into `dst`, which must be exactly one record long.
    pub fn pack(src: TokenData, dst: &mut [u8]) -> (r: Result<(), ProgramError>)
        ensures
            old(dst)@.len() != RECORD_LEN ==> r == Err::<(), ProgramError>(ProgramError::InvalidAccountData)
                && final(dst)@ == old(dst)@,
            old(dst)@.len() == RECORD_LEN ==> r is Ok && final(dst)@ == spec_pack_record(src),
    {
        if dst.len() != RECORD_LEN {
            return Err(ProgramError::InvalidAccountData);
        }
        src.pack_into_slice(dst);
        assert(old(dst)@.subrange(RECORD_LEN as int, RECORD_LEN as int) =~= Seq::<u8>::empty());
        assert(dst@ =~= spec_pack_record(src));
        Ok(())
    }
}

} // verus!
