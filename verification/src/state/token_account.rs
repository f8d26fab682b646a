//! The part of a token account that the vault reads.

use crate::address::Address;
use crate::error::VaultError;
use solana_program::program_error::ProgramError;
use solana_program::program_pack::Pack;
use vstd::prelude::*;

verus! {

/// What the token sub-ledger records of one token account, as far as the
/// vault looks at it.
#[derive(Clone, Copy, Debug, PartialEq, Eq)]
pub struct TokenAccount {
    /// The asset that the account holds.
    pub mint: Address,
    /// The principal that the sub-ledger registers as the account's owner.
    pub owner: Address,
    /// The balance.
    pub amount: u64,
}

/// What `spl_token::state::Account::unpack` makes of `data`: the token
/// account stored there, or the error with which it refuses the bytes.
pub uninterp spec fn unpacked(data: Seq<u8>) -> Result<TokenAccount, VaultError>;

/// Calls `spl_token::state::Account::unpack`, which reads the sub-ledger's
/// fixed layout and answers from the bytes alone, and keeps the asset, the
/// owner and the balance of what it read. It refuses bytes that are not a
/// token account with `InvalidAccountData` and an account that was never
/// initialised with `UninitializedAccount`. The contract names the outcome
/// and claims nothing else of it.
#[verifier::external_body]
pub(crate) fn unpack(data: &[u8]) -> (r: Result<TokenAccount, VaultError>)
    ensures
        r == unpacked(data@),
{
    match spl_token::state::Account::unpack(data) {
        Ok(account) => Ok(
            TokenAccount {
                mint: Address { bytes: account.mint.to_bytes() },
                owner: Address { bytes: account.owner.to_bytes() },
                amount: account.amount,
            },
        ),
        Err(ProgramError::UninitializedAccount) => Err(VaultError::UninitializedAccount),
        Err(_) => Err(VaultError::InvalidAccountData),
    }
}

} // verus!
