//! The four instructions of the vault and the envelope that carries them.

pub mod close;
pub mod deposit;
pub mod initialize;
pub mod withdraw;

use crate::error::VaultError;
use vstd::bytes::{
    spec_u64_from_le_bytes, spec_u64_to_le_bytes, u64_from_le_bytes, u64_to_le_bytes,
};
use vstd::prelude::*;
use vstd::slice::slice_subrange;

verus! {

/// An instruction of the vault, as a client sends it.
#[derive(Debug, Clone, Copy, PartialEq, Eq)]
pub enum VaultInstruction {
    /// Creates the vault of the signing authority.
    Initialize { vault_bump: u8, state_bump: u8, is_native: bool },
    /// Moves `amount` from the depositor into the vault.
    Deposit { amount: u64 },
    /// Moves `amount` out of the vault, on the authority's word.
    Withdraw { amount: u64 },
    /// Closes the vault and returns what funded it to the authority.
    Close,
}

impl VaultInstruction {
    /// The envelope on the wire: one byte that tells the variant, then its
    /// fields in order, a bump as one byte, the flag as 0 or 1, an amount as
    /// eight bytes with the least significant first.
    pub open spec fn encoding(self) -> Seq<u8> {
        match self {
            VaultInstruction::Initialize { vault_bump, state_bump, is_native } => seq![
                0u8,
                vault_bump,
                state_bump,
                if is_native {
                    1u8
                } else {
                    0u8
                },
            ],
            VaultInstruction::Deposit { amount } => seq![1u8] + spec_u64_to_le_bytes(amount),
            VaultInstruction::Withdraw { amount } => seq![2u8] + spec_u64_to_le_bytes(amount),
            VaultInstruction::Close => seq![3u8],
        }
    }

    /// The instruction that `data` carries. Nothing may follow the fields,
    /// and the flag is 0 or 1.
    pub open spec fn decoding(data: Seq<u8>) -> Option<VaultInstruction> {
        if data.len() == 4 && data[0] == 0 && data[3] <= 1 {
            Some(
                VaultInstruction::Initialize {
                    vault_bump: data[1],
                    state_bump: data[2],
                    is_native: data[3] == 1,
                },
            )
        } else if data.len() == 9 && data[0] == 1 {
            Some(VaultInstruction::Deposit { amount: spec_u64_from_le_bytes(data.subrange(1, 9)) })
        } else if data.len() == 9 && data[0] == 2 {
            Some(
                VaultInstruction::Withdraw { amount: spec_u64_from_le_bytes(data.subrange(1, 9)) },
            )
        } else if data.len() == 1 && data[0] == 3 {
            Some(VaultInstruction::Close)
        } else {
            None
        }
    }

    /// Writes the envelope.
    pub fn encode(&self) -> (r: Vec<u8>)
        ensures
            r@ == self.encoding(),
    {
        let mut out: Vec<u8> = Vec::new();
        match self {
            VaultInstruction::Initialize { vault_bump, state_bump, is_native } => {
                out.push(0);
                out.push(*vault_bump);
                out.push(*state_bump);
                out.push(
                    if *is_native {
                        1
                    } else {
                        0
                    },
                );
            },
            VaultInstruction::Deposit { amount } => {
                out.push(1);
                let mut bytes = u64_to_le_bytes(*amount);
                out.append(&mut bytes);
            },
            VaultInstruction::Withdraw { amount } => {
                out.push(2);
                let mut bytes = u64_to_le_bytes(*amount);
                out.append(&mut bytes);
            },
            VaultInstruction::Close => {
                out.push(3);
            },
        }
        assert(out@ =~= self.encoding());
        out
    }

    /// Reads an envelope. Fails with `Encoding` unless `data` is the
    /// envelope of an instruction.
    pub fn try_from_slice(data: &[u8]) -> (r: Result<VaultInstruction, VaultError>)
        ensures
            match r {
                Ok(instruction) => VaultInstruction::decoding(data@) == Some(instruction),
                Err(e) => e == VaultError::Encoding && VaultInstruction::decoding(data@) is None,
            },
    {
        if data.len() == 0 {
            return Err(VaultError::Encoding);
        }
        let tag = data[0];
        if tag == 0 {
            if data.len() != 4 || data[3] > 1 {
                return Err(VaultError::Encoding);
            }
            Ok(
                VaultInstruction::Initialize {
                    vault_bump: data[1],
                    state_bump: data[2],
                    is_native: data[3] == 1,
                },
            )
        } else if tag == 1 {
            if data.len() != 9 {
                return Err(VaultError::Encoding);
            }
            Ok(VaultInstruction::Deposit { amount: u64_from_le_bytes(slice_subrange(data, 1, 9)) })
        } else if tag == 2 {
            if data.len() != 9 {
                return Err(VaultError::Encoding);
            }
            Ok(VaultInstruction::Withdraw { amount: u64_from_le_bytes(slice_subrange(data, 1, 9)) })
        } else if tag == 3 {
            if data.len() != 1 {
                return Err(VaultError::Encoding);
            }
            Ok(VaultInstruction::Close)
        } else {
            Err(VaultError::Encoding)
        }
    }
}

/// An envelope that was written is read back as the same instruction.
pub proof fn decoding_inverts_encoding(instruction: VaultInstruction)
    ensures
        VaultInstruction::decoding(instruction.encoding()) == Some(instruction),
{
    vstd::bytes::lemma_auto_spec_u64_to_from_le_bytes();
    match instruction {
        VaultInstruction::Deposit { amount } => {
            assert(instruction.encoding().subrange(1, 9) =~= spec_u64_to_le_bytes(amount));
        },
        VaultInstruction::Withdraw { amount } => {
            assert(instruction.encoding().subrange(1, 9) =~= spec_u64_to_le_bytes(amount));
        },
        _ => {},
    }
}

/// The envelope is canonical: bytes that carry an instruction are that
/// instruction's envelope.
pub proof fn encoding_inverts_decoding(data: Seq<u8>)
    requires
        VaultInstruction::decoding(data) is Some,
    ensures
        VaultInstruction::decoding(data)->0.encoding() == data,
{
    vstd::bytes::lemma_auto_spec_u64_to_from_le_bytes();
    let instruction = VaultInstruction::decoding(data)->0;
    match instruction {
        VaultInstruction::Deposit { amount } => {
            assert(spec_u64_to_le_bytes(amount) == data.subrange(1, 9));
            assert(instruction.encoding() =~= data);
        },
        VaultInstruction::Withdraw { amount } => {
            assert(spec_u64_to_le_bytes(amount) == data.subrange(1, 9));
            assert(instruction.encoding() =~= data);
        },
        _ => {
            assert(instruction.encoding() =~= data);
        },
    }
}

} // verus!
