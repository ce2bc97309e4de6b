use vstd::bytes::{
    lemma_auto_spec_u64_to_from_le_bytes, spec_u64_from_le_bytes, spec_u64_to_le_bytes,
    u64_from_le_bytes, u64_to_le_bytes,
};
use vstd::prelude::*;
use vstd::slice::slice_subrange;

use crate::error::FaucetError;

verus! {

/// One of the two operations the faucet accepts, with its argument.
///
/// Wire format: byte 0 is the opcode (0 = `InitFaucet`, 1 = `MintTokens`),
/// bytes 1..9 are the amount as a little-endian 64-bit unsigned integer.
/// Trailing bytes beyond 9 are ignored.
#[derive(Clone, Copy, Debug, PartialEq, Eq, Structural)]
pub enum FaucetInstruction {
    /// Initializes a faucet bound to a mint, with a per-call minting ceiling.
    InitFaucet { amount: u64 },
    /// Requests `amount` newly minted tokens from an initialized faucet.
    MintTokens { amount: u64 },
}

impl FaucetInstruction {
    /// The exact byte sequence `pack` produces.
    pub open spec fn spec_pack(self) -> Seq<u8> {
        match self {
            FaucetInstruction::InitFaucet { amount } => seq![0u8] + spec_u64_to_le_bytes(amount),
            FaucetInstruction::MintTokens { amount } => seq![1u8] + spec_u64_to_le_bytes(amount),
        }
    }

    /// The exact outcome of decoding `input`: an instruction for a recognized
    /// opcode followed by 8 amount bytes, `InvalidInstruction` otherwise.
    pub open spec fn spec_unpack(input: Seq<u8>) -> Result<FaucetInstruction, FaucetError> {
        if input.len() == 0 {
            Err(FaucetError::InvalidInstruction)
        } else if input[0] == 0 {
            if input.len() >= 9 {
                Ok(FaucetInstruction::InitFaucet {
                    amount: spec_u64_from_le_bytes(input.subrange(1, 9)),
                })
            } else {
                Err(FaucetError::InvalidInstruction)
            }
        } else if input[0] == 1 {
            if input.len() >= 9 {
                Ok(FaucetInstruction::MintTokens {
                    amount: spec_u64_from_le_bytes(input.subrange(1, 9)),
                })
            } else {
                Err(FaucetError::InvalidInstruction)
            }
        } else {
            Err(FaucetError::InvalidInstruction)
        }
    }

    /// Decodes an instruction from a byte buffer.
    pub fn unpack(input: &[u8]) -> (r: Result<Self, FaucetError>)
        ensures
            r == Self::spec_unpack(input@),
    {
        if input.len() == 0 {
            return Err(FaucetError::InvalidInstruction);
        }
        let tag = *vstd::slice::slice_index_get(input, 0);
        if tag == 0 || tag == 1 {
            if input.len() < 9 {
                return Err(FaucetError::InvalidInstruction);
            }
            let amount = u64_from_le_bytes(slice_subrange(input, 1, 9));
            if tag == 0 {
                Ok(FaucetInstruction::InitFaucet { amount })
            } else {
                Ok(FaucetInstruction::MintTokens { amount })
            }
        } else {
            Err(FaucetError::InvalidInstruction)
        }
    }

    /// Encodes the instruction as its 9-byte wire form.
    pub fn pack(&self) -> (r: Vec<u8>)
        ensures
            r@ == self.spec_pack(),
            r@.len() == 9,
    {
        proof {
            lemma_auto_spec_u64_to_from_le_bytes();
        }
        let mut buf: Vec<u8> = Vec::new();
        match self {
            FaucetInstruction::InitFaucet { amount } => {
                buf.push(0u8);
                let mut bytes = u64_to_le_bytes(*amount);
                buf.append(&mut bytes);
            },
            FaucetInstruction::MintTokens { amount } => {
                buf.push(1u8);
                let mut bytes = u64_to_le_bytes(*amount);
                buf.append(&mut bytes);
            },
        }
        proof {
            assert(buf@ =~= self.spec_pack());
        }
        buf
    }
}

/// Law: decoding an encoded instruction yields the instruction back, for
/// either opcode and any 64-bit amount.
pub proof fn lemma_instruction_round_trip(i: FaucetInstruction)
    ensures
        FaucetInstruction::spec_unpack(i.spec_pack()) == Ok::<FaucetInstruction, FaucetError>(i),
{
    lemma_auto_spec_u64_to_from_le_bytes();
    match i {
        FaucetInstruction::InitFaucet { amount } => {
            assert(i.spec_pack().subrange(1, 9) =~= spec_u64_to_le_bytes(amount));
        },
        FaucetInstruction::MintTokens { amount } => {
            assert(i.spec_pack().subrange(1, 9) =~= spec_u64_to_le_bytes(amount));
        },
    }
}

/// Law: decoding fails with `InvalidInstruction` on an empty input, on an
/// opcode other than 0 or 1, and on fewer than 8 bytes after the opcode.
pub proof fn lemma_instruction_rejects_malformed(input: Seq<u8>)
    ensures
        input.len() == 0 ==> FaucetInstruction::spec_unpack(input) == Err::<
            FaucetInstruction,
            FaucetError,
        >(FaucetError::InvalidInstruction),
        input.len() > 0 && input[0] != 0 && input[0] != 1
            ==> FaucetInstruction::spec_unpack(input) == Err::<FaucetInstruction, FaucetError>(
            FaucetError::InvalidInstruction,
        ),
        input.len() < 9 ==> FaucetInstruction::spec_unpack(input) == Err::<
            FaucetInstruction,
            FaucetError,
        >(FaucetError::InvalidInstruction),
{
}

} // verus!
