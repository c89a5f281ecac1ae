use vstd::prelude::*;
use vstd::bytes::{spec_u64_from_le_bytes, spec_u64_to_le_bytes, u64_from_le_bytes};
use vstd::slice::slice_subrange;

use crate::error::{custom, ProgramError, TokenCreateError};

verus! {

/// The four operations of the program.
#[derive(Debug, Clone, Copy, PartialEq, Eq, Structural)]
pub enum TokenCreateInstruction {
    /// Create the configuration record; `arg` is the token's number of decimal places.
    CreateToken { arg: u64 },
    /// Initialize the mint with the ledger service and mint `amount` units.
    MintToken { amount: u64 },
    /// Mint `amount` more units.
    AddToken { amount: u64 },
    /// Burn `amount` units.
    Burn { amount: u64 },
}

/// The payload's amount: the first eight bytes, little endian.
pub open spec fn spec_unpack_amount(input: Seq<u8>) -> Result<u64, ProgramError> {
    if input.len() < 8 {
        Err(custom(TokenCreateError::InvalidInstruction))
    } else {
        Ok(spec_u64_from_le_bytes(input.subrange(0, 8)))
    }
}

/// The operation that the instruction bytes `input` encode: a tag byte, then the payload.
pub open spec fn spec_unpack(input: Seq<u8>) -> Result<TokenCreateInstruction, ProgramError> {
    if input.len() == 0 || input[0] > 3 {
        Err(custom(TokenCreateError::InvalidInstruction))
    } else {
        match spec_unpack_amount(input.skip(1)) {
            Err(e) => Err(e),
            Ok(v) => Ok(
                if input[0] == 0 {
                    TokenCreateInstruction::CreateToken { arg: v }
                } else if input[0] == 1 {
                    TokenCreateInstruction::MintToken { amount: v }
                } else if input[0] == 2 {
                    TokenCreateInstruction::AddToken { amount: v }
                } else {
                    TokenCreateInstruction::Burn { amount: v }
                },
            ),
        }
    }
}

/// The instruction bytes of an operation, with nothing after the amount.
pub open spec fn spec_pack(ix: TokenCreateInstruction) -> Seq<u8> {
    match ix {
        TokenCreateInstruction::CreateToken { arg } => seq![0u8] + spec_u64_to_le_bytes(arg),
        TokenCreateInstruction::MintToken { amount } => seq![1u8] + spec_u64_to_le_bytes(amount),
        TokenCreateInstruction::AddToken { amount } => seq![2u8] + spec_u64_to_le_bytes(amount),
        TokenCreateInstruction::Burn { amount } => seq![3u8] + spec_u64_to_le_bytes(amount),
    }
}

impl TokenCreateInstruction {
    /// Decodes instruction bytes; bytes after the amount are ignored.
    pub fn unpack(input: &[u8]) -> (r: Result<TokenCreateInstruction, ProgramError>)
        ensures
            r == spec_unpack(input@),
    {
        if input.len() == 0 {
            return Err(TokenCreateError::InvalidInstruction.into());
        }
        let tag = input[0];
        if tag > 3 {
            return Err(TokenCreateError::InvalidInstruction.into());
        }
        let rest = slice_subrange(input, 1, input.len());
        assert(rest@ == input@.skip(1));
        let v = Self::unpack_amount(rest)?;
        Ok(
            if tag == 0 {
                TokenCreateInstruction::CreateToken { arg: v }
            } else if tag == 1 {
                TokenCreateInstruction::MintToken { amount: v }
            } else if tag == 2 {
                TokenCreateInstruction::AddToken { amount: v }
            } else {
                TokenCreateInstruction::Burn { amount: v }
            },
        )
    }

    /// Reads the amount from the start of a payload.
    pub fn unpack_amount(input: &[u8]) -> (r: Result<u64, ProgramError>)
        ensures
            r == spec_unpack_amount(input@),
    {
        if input.len() < 8 {
            return Err(TokenCreateError::InvalidInstruction.into());
        }
        let head = slice_subrange(input, 0, 8);
        Ok(u64_from_le_bytes(head))
    }
}

/// An operation's tag and little-endian amount decode to that operation, whatever
/// bytes follow them.
pub proof fn lemma_unpack_pack(ix: TokenCreateInstruction, tail: Seq<u8>)
    ensures
        spec_unpack(spec_pack(ix) + tail) == Ok::<TokenCreateInstruction, ProgramError>(ix),
{
    vstd::bytes::lemma_auto_spec_u64_to_from_le_bytes();
    let input = spec_pack(ix) + tail;
    let amount = match ix {
        TokenCreateInstruction::CreateToken { arg } => arg,
        TokenCreateInstruction::MintToken { amount } => amount,
        TokenCreateInstruction::AddToken { amount } => amount,
        TokenCreateInstruction::Burn { amount } => amount,
    };
    assert(input.skip(1).subrange(0, 8) == spec_u64_to_le_bytes(amount));
}

/// Bytes whose tag is not one of the four operations, or whose payload is shorter
/// than eight bytes, are rejected as an invalid instruction.
pub proof fn lemma_unpack_rejects(input: Seq<u8>)
    requires
        input.len() == 0 || input[0] > 3 || input.len() < 9,
    ensures
        spec_unpack(input) == Err::<TokenCreateInstruction, ProgramError>(
            custom(TokenCreateError::InvalidInstruction),
        ),
{
}

} // verus!
