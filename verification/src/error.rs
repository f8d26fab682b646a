//! The errors with which an instruction aborts.

use vstd::prelude::*;

verus! {

/// Why an instruction was refused. Every error is terminal: nothing of the
/// instruction is applied.
#[derive(Clone, Copy, Debug, PartialEq, Eq, Structural)]
pub enum VaultError {
    /// Fewer accounts were supplied than the instruction names.
    NotEnoughAccounts,
    /// A principal that has to authenticate did not sign.
    MissingSignature,
    /// An account's registered owner is not the expected principal.
    WrongOwner,
    /// The signer is not the authority recorded in the vault.
    IllegalOwner,
    /// An account is not at the expected address, two token accounts hold
    /// different assets, or a stored record does not decode.
    InvalidAccountData,
    /// A token account was never initialised.
    UninitializedAccount,
    /// The state address already holds data or already belongs to this program.
    AlreadyInitialized,
    /// A program account is not the fixed program it stands for.
    IncorrectProgramId,
    /// A token vault still holds a balance and cannot be closed.
    NonZeroBalance,
    /// Bytes on the wire do not decode, or a record does not fit its account.
    Encoding,
    /// No bump yields a program-controlled address for the given seeds.
    AddressUnavailable,
}

} // verus!
