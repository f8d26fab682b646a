//! Withdrawing from a vault: only the recorded authority may.
//!
//! Accounts, in order: the authority (signer), the state account, the
//! source (the vault's holding account), the destination, the token
//! program, the system program.

use crate::account::{Account, AccountView};
use crate::address::{Address, Namespace, SYSTEM_PROGRAM_ID, TOKEN_PROGRAM_ID};
use crate::error::VaultError;
use crate::ledger::{Action, ActionView, Pending, Signer};
use crate::state::token_account::{unpack, unpacked, TokenAccount};
use crate::state::vault_state::VaultState;
use crate::wire::Call;
use vstd::prelude::*;

verus! {

/// How many accounts the instruction names.
pub const ACCOUNTS: usize = 6;

/// The answer to a request to withdraw `amount`, where `source` and
/// `destination` are what the token sub-ledger makes of the two accounts of
/// those names.
///
/// The checks stand in the order in which they are made; the first that
/// fails decides the error. The signer must be the authority that the
/// record names, and the source must be the holding account that it names.
/// The program then signs for the vault address and has `amount` moved out.
pub open spec fn planned(
    accounts: Seq<AccountView>,
    amount: u64,
    source: Result<TokenAccount, VaultError>,
    destination: Result<TokenAccount, VaultError>,
) -> ActionView {
    if accounts.len() < ACCOUNTS {
        ActionView::Abort(VaultError::NotEnoughAccounts)
    } else if !accounts[0].is_signer {
        ActionView::Abort(VaultError::MissingSignature)
    } else {
        match VaultState::decoding(accounts[1].data) {
            None => ActionView::Abort(VaultError::InvalidAccountData),
            Some(state) => {
                if state.authority != accounts[0].key {
                    ActionView::Abort(VaultError::IllegalOwner)
                } else if accounts[2].key != state.token_account {
                    ActionView::Abort(VaultError::InvalidAccountData)
                } else if state.is_native {
                    planned_native(accounts, state, amount)
                } else {
                    planned_token(accounts, state, amount, source, destination)
                }
            },
        }
    }
}

/// Withdrawing from a native vault whose record and roles have been accepted.
pub open spec fn planned_native(
    accounts: Seq<AccountView>,
    state: VaultState,
    amount: u64,
) -> ActionView {
    if accounts[5].key != Address::system_program() {
        ActionView::Abort(VaultError::IncorrectProgramId)
    } else if accounts[2].owner != accounts[5].key {
        ActionView::Abort(VaultError::WrongOwner)
    } else {
        ActionView::Invoke {
            call: Call::Transfer { from: accounts[2].key, to: accounts[3].key, lamports: amount },
            accounts: seq![2usize, 3usize, 5usize],
            signer: Some(Signer::for_vault(accounts[1].key, state.vault_bump)),
            then: Pending::Transferred,
        }
    }
}

/// Withdrawing from a token vault whose record and roles have been accepted:
/// both accounts belong to the token program, the source is the state
/// account's, the destination is the authority's, and both hold one asset.
pub open spec fn planned_token(
    accounts: Seq<AccountView>,
    state: VaultState,
    amount: u64,
    source: Result<TokenAccount, VaultError>,
    destination: Result<TokenAccount, VaultError>,
) -> ActionView {
    if accounts[4].key != Address::token_program() {
        ActionView::Abort(VaultError::IncorrectProgramId)
    } else if accounts[2].owner != accounts[4].key {
        ActionView::Abort(VaultError::WrongOwner)
    } else if accounts[3].owner != accounts[4].key {
        ActionView::Abort(VaultError::WrongOwner)
    } else {
        match (source, destination) {
            (Err(e), _) => ActionView::Abort(e),
            (Ok(_), Err(e)) => ActionView::Abort(e),
            (Ok(from), Ok(to)) => {
                if from.owner != accounts[1].key {
                    ActionView::Abort(VaultError::WrongOwner)
                } else if to.owner != accounts[0].key {
                    ActionView::Abort(VaultError::WrongOwner)
                } else if from.mint != to.mint {
                    ActionView::Abort(VaultError::InvalidAccountData)
                } else {
                    ActionView::Invoke {
                        call: Call::TokenTransfer {
                            token_program: accounts[4].key,
                            source: accounts[2].key,
                            destination: accounts[3].key,
                            authority: accounts[1].key,
                            amount,
                        },
                        accounts: seq![2usize, 3usize, 1usize, 4usize],
                        signer: Some(Signer::for_vault(accounts[1].key, state.vault_bump)),
                        then: Pending::Transferred,
                    }
                }
            },
        }
    }
}

/// The answer to a request to withdraw `amount`.
pub open spec fn withdrawing(accounts: Seq<AccountView>, amount: u64) -> ActionView {
    planned(accounts, amount, unpacked(accounts[2].data), unpacked(accounts[3].data))
}

/// Decides a request to withdraw, given what the token sub-ledger makes of
/// the source and of the destination.
pub fn plan(
    accounts: &[Account],
    amount: u64,
    source: Result<TokenAccount, VaultError>,
    destination: Result<TokenAccount, VaultError>,
) -> (action: Action)
    ensures
        action@ == planned(accounts.deep_view(), amount, source, destination),
{
    if accounts.len() < ACCOUNTS {
        return Action::Abort(VaultError::NotEnoughAccounts);
    }
    let authority = &accounts[0];
    let vault_state = &accounts[1];
    let source_account = &accounts[2];
    let destination_account = &accounts[3];
    let token_program = &accounts[4];
    let system_program = &accounts[5];
    if !authority.is_signer {
        return Action::Abort(VaultError::MissingSignature);
    }
    let state = match VaultState::try_from_slice(vault_state.data.as_slice()) {
        Ok(state) => state,
        Err(e) => {
            return Action::Abort(e);
        },
    };
    if state.authority != authority.key {
        return Action::Abort(VaultError::IllegalOwner);
    }
    if source_account.key != state.token_account {
        return Action::Abort(VaultError::InvalidAccountData);
    }
    let signer =
        Signer { namespace: Namespace::Vault, seed: vault_state.key, bump: state.vault_bump };
    if state.is_native {
        if system_program.key != Address::new(SYSTEM_PROGRAM_ID) {
            return Action::Abort(VaultError::IncorrectProgramId);
        }
        if source_account.owner != system_program.key {
            return Action::Abort(VaultError::WrongOwner);
        }
        Action::Invoke {
            call: Call::Transfer {
                from: source_account.key,
                to: destination_account.key,
                lamports: amount,
            },
            accounts: vec![2, 3, 5],
            signer: Some(signer),
            then: Pending::Transferred,
        }
    } else {
        if token_program.key != Address::new(TOKEN_PROGRAM_ID) {
            return Action::Abort(VaultError::IncorrectProgramId);
        }
        if source_account.owner != token_program.key {
            return Action::Abort(VaultError::WrongOwner);
        }
        if destination_account.owner != token_program.key {
            return Action::Abort(VaultError::WrongOwner);
        }
        let from = match source {
            Ok(token) => token,
            Err(e) => {
                return Action::Abort(e);
            },
        };
        let to = match destination {
            Ok(token) => token,
            Err(e) => {
                return Action::Abort(e);
            },
        };
        if from.owner != vault_state.key {
            return Action::Abort(VaultError::WrongOwner);
        }
        if to.owner != authority.key {
            return Action::Abort(VaultError::WrongOwner);
        }
        if from.mint != to.mint {
            return Action::Abort(VaultError::InvalidAccountData);
        }
        Action::Invoke {
            call: Call::TokenTransfer {
                token_program: token_program.key,
                source: source_account.key,
                destination: destination_account.key,
                authority: vault_state.key,
                amount,
            },
            accounts: vec![2, 3, 1, 4],
            signer: Some(signer),
            then: Pending::Transferred,
        }
    }
}

/// Decides a request to withdraw `amount` from the vault stored in
/// `accounts[1]`.
pub fn withdraw(_program_id: &Address, accounts: &[Account], amount: u64) -> (action: Action)
    ensures
        action@ == withdrawing(accounts.deep_view(), amount),
{
    if accounts.len() < ACCOUNTS {
        return Action::Abort(VaultError::NotEnoughAccounts);
    }
    let source = unpack(accounts[2].data.as_slice());
    let destination = unpack(accounts[3].data.as_slice());
    plan(accounts, amount, source, destination)
}

} // verus!
