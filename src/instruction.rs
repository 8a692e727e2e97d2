use vstd::prelude::*;
use crate::error::ProgramError;

verus! {

/// Arguments of the record-creation command.
#[derive(Debug, Clone, Copy, PartialEq, Eq, Structural)]
pub struct StampArgs {
    /// The disambiguation seed of the record's derived address.
    pub bump: u8,
}

/// The commands the program accepts. Encoded as a variant tag byte followed
/// by the variant's fields.
#[derive(Debug, Clone, Copy, PartialEq, Eq, Structural)]
pub enum StampInstruction {
    /// Accounts expected, in order: the authority (signer), the fee payer
    /// (signer, writable), the record account (writable), the reference,
    /// the rent schedule, the system service.
    InitStamp(StampArgs),
}

/// The encoding of a command.
pub open spec fn encoded(ix: StampInstruction) -> Seq<u8> {
    match ix {
        StampInstruction::InitStamp(args) => seq![0u8, args.bump],
    }
}

/// The command a payload holds: every byte must be read.
pub open spec fn decoded(data: Seq<u8>) -> Result<StampInstruction, ProgramError> {
    if data.len() == 2 && data[0] == 0 {
        Ok(StampInstruction::InitStamp(StampArgs { bump: data[1] }))
    } else {
        Err(ProgramError::InvalidInstructionData)
    }
}

impl StampInstruction {
    /// Decodes a payload; fails with `InvalidInstructionData` on an unknown
    /// tag, a short payload, or bytes left over.
    pub fn try_from_slice(data: &[u8]) -> (r: Result<StampInstruction, ProgramError>)
        ensures
            r == decoded(data@),
    {
        if data.len() != 2 || data[0] != 0 {
            return Err(ProgramError::InvalidInstructionData);
        }
        Ok(StampInstruction::InitStamp(StampArgs { bump: data[1] }))
    }

    /// Encodes the command.
    pub fn to_bytes(&self) -> (r: Vec<u8>)
        ensures
            r@ == encoded(*self),
    {
        match self {
            StampInstruction::InitStamp(args) => {
                let r: Vec<u8> = vec![0u8, args.bump];
                assert(r@ =~= encoded(*self));
                r
            },
        }
    }
}

/// Decoding an encoded command gives the command back.
pub proof fn lemma_instruction_round_trip(ix: StampInstruction)
    ensures
        decoded(encoded(ix)) == Ok::<StampInstruction, ProgramError>(ix),
{
}

} // verus!
