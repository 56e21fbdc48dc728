//! The instruction codec: the opaque byte payload handed to the entry
//! function parses into exactly one of two typed commands, or fails.

use vstd::prelude::*;

use crate::error::{custom_error, EscrowError, ProgramError};
use crate::wire::{le_u64, le_u64_from};

verus! {

/// The two commands the program understands.
#[derive(Debug, Clone, Copy, PartialEq, Eq)]
pub enum EscrowInstruction {
    /// Open an escrow: persist the terms and hand custody of the deposit to
    /// the derived authority.
    InitEscrow { amount: u64 },
    /// Settle an escrow: pay the initializer, release the deposit to the
    /// acceptor, and retire the record.
    Exchange { amount: u64 },
}

/// A payload parses iff byte 0 is a known discriminant and at least eight
/// bytes of little-endian amount follow; trailing bytes are ignored.
pub open spec fn payload_parses(data: Seq<u8>) -> bool {
    data.len() >= 9 && (data[0] == 0 || data[0] == 1)
}

/// The command a well-formed payload carries.
pub open spec fn parsed_instruction(data: Seq<u8>) -> EscrowInstruction
    recommends
        payload_parses(data),
{
    let amount = le_u64(data.subrange(1, 9)) as u64;
    if data[0] == 0 {
        EscrowInstruction::InitEscrow { amount }
    } else {
        EscrowInstruction::Exchange { amount }
    }
}

impl EscrowInstruction {
    /// Parse the opaque payload: byte 0 selects the command, bytes 1..9 carry
    /// the amount, little-endian; any other shape is an invalid instruction.
    pub fn unpack(input: &[u8]) -> (r: Result<EscrowInstruction, ProgramError>)
        ensures
            payload_parses(input@) ==> r == Ok::<EscrowInstruction, ProgramError>(
                parsed_instruction(input@),
            ),
            !payload_parses(input@) ==> r == Err::<EscrowInstruction, ProgramError>(
                custom_error(EscrowError::InvalidInstruction),
            ),
    {
        if input.len() < 9 {
            return Err(ProgramError::from(EscrowError::InvalidInstruction));
        }
        let tag = input[0];
        if tag == 0 {
            let amount = le_u64_from(input, 1);
            Ok(EscrowInstruction::InitEscrow { amount })
        } else if tag == 1 {
            let amount = le_u64_from(input, 1);
            Ok(EscrowInstruction::Exchange { amount })
        } else {
            Err(ProgramError::from(EscrowError::InvalidInstruction))
        }
    }
}

} // verus!
