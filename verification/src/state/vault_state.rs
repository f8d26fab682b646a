//! The record that describes one vault, and its fixed-width layout.

use crate::address::Address;
use crate::error::VaultError;
use vstd::prelude::*;
use vstd::slice::slice_subrange;

verus! {

/// The persisted description of one vault. It is written once, when the
/// vault is created, and read by every later instruction.
#[derive(Clone, Copy, Debug, PartialEq, Eq)]
pub struct VaultState {
    /// Who controls the vault.
    pub authority: Address,
    /// The asset held by a token vault; a placeholder for a native one.
    pub token_mint: Address,
    /// The account that holds the balance.
    pub token_account: Address,
    /// The bump of the state address.
    pub state_bump: u8,
    /// The bump of the native holding address.
    pub vault_bump: u8,
    /// Whether the vault holds the native asset rather than a token.
    pub is_native: bool,
}

impl VaultState {
    /// The number of bytes of a stored record.
    pub open spec fn size() -> nat {
        99
    }

    /// The layout: the three identities in order, the state bump, the vault
    /// bump, and one byte for the flag (1 for native), with no padding.
    pub open spec fn encoding(self) -> Seq<u8> {
        self.authority.bytes@ + self.token_mint.bytes@ + self.token_account.bytes@ + seq![
            self.state_bump,
            self.vault_bump,
            if self.is_native {
                1u8
            } else {
                0u8
            },
        ]
    }

    /// The record that `data` stores: `data` must be exactly as long as a
    /// record and end in a flag byte of 0 or 1.
    pub open spec fn decoding(data: Seq<u8>) -> Option<VaultState> {
        if data.len() == 99 && data[98] <= 1 {
            Some(
                VaultState {
                    authority: Address::from_seq(data.subrange(0, 32)),
                    token_mint: Address::from_seq(data.subrange(32, 64)),
                    token_account: Address::from_seq(data.subrange(64, 96)),
                    state_bump: data[96],
                    vault_bump: data[97],
                    is_native: data[98] == 1,
                },
            )
        } else {
            None
        }
    }

    /// The storage that a record needs.
    pub fn space() -> (r: usize)
        ensures
            r == VaultState::size(),
            r == 99,
    {
        32 + 32 + 32 + 1 + 1 + 1
    }

    /// Writes the record in its layout.
    pub fn encode(&self) -> (r: Vec<u8>)
        ensures
            r@ == self.encoding(),
            r@.len() == VaultState::size(),
    {
        let mut out = self.authority.to_vec();
        let mut mint = self.token_mint.to_vec();
        let mut holding = self.token_account.to_vec();
        out.append(&mut mint);
        out.append(&mut holding);
        out.push(self.state_bump);
        out.push(self.vault_bump);
        out.push(
            if self.is_native {
                1
            } else {
                0
            },
        );
        assert(out@ =~= self.encoding());
        out
    }

    /// Reads a record. Fails with `InvalidAccountData` unless `data` is the
    /// encoding of a record.
    pub fn try_from_slice(data: &[u8]) -> (r: Result<VaultState, VaultError>)
        ensures
            match r {
                Ok(state) => VaultState::decoding(data@) == Some(state),
                Err(e) => e == VaultError::InvalidAccountData && VaultState::decoding(data@)
                    is None,
            },
    {
        if data.len() != 99 {
            return Err(VaultError::InvalidAccountData);
        }
        let flag = data[98];
        if flag > 1 {
            return Err(VaultError::InvalidAccountData);
        }
        Ok(
            VaultState {
                authority: Address::from_slice(slice_subrange(data, 0, 32)),
                token_mint: Address::from_slice(slice_subrange(data, 32, 64)),
                token_account: Address::from_slice(slice_subrange(data, 64, 96)),
                state_bump: data[96],
                vault_bump: data[97],
                is_native: flag == 1,
            },
        )
    }
}

/// Every record encodes to exactly as many bytes as `space` reserves.
pub proof fn encoding_has_fixed_size(state: VaultState)
    ensures
        state.encoding().len() == VaultState::size(),
{
}

/// A record that was written is read back unchanged.
pub proof fn decoding_inverts_encoding(state: VaultState)
    ensures
        VaultState::decoding(state.encoding()) == Some(state),
{
    let data = state.encoding();
    assert(data.subrange(0, 32) =~= state.authority.bytes@);
    assert(data.subrange(32, 64) =~= state.token_mint.bytes@);
    assert(data.subrange(64, 96) =~= state.token_account.bytes@);
    crate::address::address_from_its_bytes(state.authority);
    crate::address::address_from_its_bytes(state.token_mint);
    crate::address::address_from_its_bytes(state.token_account);
}

/// The layout is canonical: bytes that decode to a record are that record's
/// encoding, so no two byte strings store the same record.
pub proof fn encoding_inverts_decoding(data: Seq<u8>)
    requires
        VaultState::decoding(data) is Some,
    ensures
        VaultState::decoding(data)->0.encoding() == data,
{
    let state = VaultState::decoding(data)->0;
    crate::address::address_bytes_from_seq(data.subrange(0, 32));
    crate::address::address_bytes_from_seq(data.subrange(32, 64));
    crate::address::address_bytes_from_seq(data.subrange(64, 96));
    assert(state.encoding() =~= data);
}

} // verus!
