//! The snapshot of a ledger account that a handler reads.

use crate::address::Address;
use vstd::prelude::*;

verus! {

/// One account as the host presents it to an instruction, reduced to what
/// the vault reads. The host supplies the accounts in the order that the
/// instruction names them.
#[derive(Clone, Debug, PartialEq, Eq)]
pub struct Account {
    /// The account's address.
    pub key: Address,
    /// The program that owns the account.
    pub owner: Address,
    /// Whether the account's key signed the transaction.
    pub is_signer: bool,
    /// The native balance.
    pub lamports: u64,
    /// The stored bytes.
    pub data: Vec<u8>,
}

/// The mathematical value of an [`Account`].
pub struct AccountView {
    pub key: Address,
    pub owner: Address,
    pub is_signer: bool,
    pub lamports: u64,
    pub data: Seq<u8>,
}

impl View for Account {
    type V = AccountView;

    open spec fn view(&self) -> AccountView {
        AccountView {
            key: self.key,
            owner: self.owner,
            is_signer: self.is_signer,
            lamports: self.lamports,
            data: self.data@,
        }
    }
}

impl DeepView for Account {
    type V = AccountView;

    open spec fn deep_view(&self) -> AccountView {
        self@
    }
}

} // verus!
