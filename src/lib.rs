//! Instruction-processing core of a token-issuance program: the instruction
//! decoder, the fixed-layout configuration-record codec, and the processor that
//! turns each operation into the account writes and ledger-service calls it needs.

pub mod error;
pub mod instruction;
mod ledger;
pub mod processor;
pub mod pubkey;
pub mod state;
