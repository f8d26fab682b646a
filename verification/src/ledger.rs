//! The conversation between a handler and the host ledger.
//!
//! A handler never touches the ledger. It answers with an [`Action`]: the one
//! thing the host has to do next. The host carries it out, stops with the
//! host's own error where that fails, and otherwise comes back with the
//! [`Pending`] that the action held, a fresh snapshot of the accounts and the
//! value that it was asked for. An instruction has been applied when the
//! answer is [`Action::Complete`].

use crate::address::{Address, Namespace};
use crate::error::VaultError;
use crate::wire::Call;
use vstd::prelude::*;

verus! {

/// The seeds with which the program signs for one of its derived addresses.
#[derive(Clone, Copy, Debug, PartialEq, Eq)]
pub struct Signer {
    /// Which of the two kinds of address is signed for.
    pub namespace: Namespace,
    /// What the address was derived from.
    pub seed: Address,
    /// The bump recorded for the address.
    pub bump: u8,
}

impl Signer {
    /// The seeds that sign for the state address of the vault of `authority`.
    pub open spec fn for_state(authority: Address, bump: u8) -> Signer {
        Signer { namespace: Namespace::State, seed: authority, bump }
    }

    /// The seeds that sign for the holding address of the native vault
    /// stored at `state`.
    pub open spec fn for_vault(state: Address, bump: u8) -> Signer {
        Signer { namespace: Namespace::Vault, seed: state, bump }
    }

    /// The seeds in the order that derives the address: the tag of the
    /// namespace, the seed and the bump.
    pub open spec fn seeds(self) -> Seq<Seq<u8>> {
        seq![self.namespace.tag(), self.seed.bytes@, seq![self.bump]]
    }

    /// The seeds as the host takes them.
    pub fn signer_seeds(&self) -> (r: Vec<Vec<u8>>)
        ensures
            r.deep_view() == self.seeds(),
    {
        let mut out: Vec<Vec<u8>> = Vec::new();
        out.push(self.namespace.tag_bytes());
        out.push(self.seed.to_vec());
        let mut bump: Vec<u8> = Vec::new();
        bump.push(self.bump);
        out.push(bump);
        assert(out.deep_view() =~~= self.seeds());
        out
    }
}

/// What creating a vault works on, fixed when the instruction was accepted.
#[derive(Clone, Copy, Debug, PartialEq, Eq)]
pub struct Opening {
    /// This program.
    pub program_id: Address,
    /// Who signed for the vault and pays for its accounts.
    pub authority: Address,
    /// The state account, at the address derived for the authority.
    pub state: Address,
    /// The asset of a token vault.
    pub mint: Address,
    /// The account that is to hold the balance.
    pub holding: Address,
    /// The account given as the token program.
    pub token_program: Address,
    /// The account given as the associated-token program.
    pub associated_token_program: Address,
    /// The bump given for the holding address.
    pub vault_bump: u8,
    /// The bump given for the state address.
    pub state_bump: u8,
    /// Whether the vault is to hold the native asset.
    pub is_native: bool,
}

/// What is left of an instruction after an action. The host hands it back
/// unchanged once it has carried the action out.
#[derive(Clone, Copy, Debug, PartialEq, Eq)]
pub enum Pending {
    /// Creating a vault: the rent of the record was asked for.
    RecordRent(Opening),
    /// Creating a vault: the state account is being created.
    RecordAccount(Opening),
    /// Creating a native vault: the rent of the holding account was asked for.
    HoldingRent(Opening),
    /// Creating a vault: the holding account is being created.
    HoldingAccount(Opening),
    /// Creating a vault: the record is being written.
    RecordStored,
    /// A deposit or a withdrawal: the transfer is on its way.
    Transferred,
    /// Closing a vault: the holding account is being emptied or closed.
    HoldingReleased { authority: Address, state: Address, state_bump: u8 },
    /// Closing a vault: the state account is being emptied.
    StateReleased,
}

/// The next thing the host has to do for an instruction.
#[derive(Clone, Debug, PartialEq, Eq)]
pub enum Action {
    /// Nothing is left to do: the instruction has been applied.
    Complete,
    /// The instruction is refused.
    Abort(VaultError),
    /// Report the least balance that exempts an account of `space` bytes
    /// from rent.
    QueryRent { space: usize, then: Pending },
    /// Invoke another program with `call`, passing the accounts at the
    /// positions `accounts` and signing with `signer` where there is one.
    Invoke { call: Call, accounts: Vec<usize>, signer: Option<Signer>, then: Pending },
    /// Write `record` at the start of the data of the account at position
    /// `account`.
    Store { account: usize, record: Vec<u8>, then: Pending },
}

/// The mathematical value of an [`Action`].
pub enum ActionView {
    Complete,
    Abort(VaultError),
    QueryRent { space: usize, then: Pending },
    Invoke { call: Call, accounts: Seq<usize>, signer: Option<Signer>, then: Pending },
    Store { account: usize, record: Seq<u8>, then: Pending },
}

impl View for Action {
    type V = ActionView;

    open spec fn view(&self) -> ActionView {
        match *self {
            Action::Complete => ActionView::Complete,
            Action::Abort(e) => ActionView::Abort(e),
            Action::QueryRent { space, then } => ActionView::QueryRent { space, then },
            Action::Invoke { call, accounts, signer, then } => ActionView::Invoke {
                call,
                accounts: accounts@,
                signer,
                then,
            },
            Action::Store { account, record, then } => ActionView::Store {
                account,
                record: record@,
                then,
            },
        }
    }
}

} // verus!
