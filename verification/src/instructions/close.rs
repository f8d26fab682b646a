//! Closing a vault: the authority takes back what funded its accounts.
//!
//! Accounts, in order: the authority (signer), the state account, the
//! holding account, a destination, the token program, the system program.
//! Whatever is reclaimed goes to the authority; the destination takes no
//! part.

use crate::account::{Account, AccountView};
use crate::address::{Address, Namespace, SYSTEM_PROGRAM_ID, TOKEN_PROGRAM_ID};
use crate::error::VaultError;
use crate::ledger::{Action, ActionView, Pending, Signer};
use crate::state::token_account::{unpack, unpacked, TokenAccount};
use crate::state::vault_state::VaultState;
use crate::wire::Call;
use vstd::prelude::*;

verus! {

/// How many accounts the instruction names.
pub const ACCOUNTS: usize = 6;

/// The answer to a request to close the vault stored in `accounts[1]`, where
/// `holding` is what the token sub-ledger makes of the holding account.
///
/// The checks stand in the order in which they are made; the first that
/// fails decides the error. A native vault has its holding account swept to
/// the authority; a token vault must be empty and has its holding account
/// closed towards the authority. Either way the state account is swept next.
pub open spec fn planned(
    program_id: Address,
    accounts: Seq<AccountView>,
    holding: Result<TokenAccount, VaultError>,
) -> ActionView {
    if accounts.len() < ACCOUNTS {
        ActionView::Abort(VaultError::NotEnoughAccounts)
    } else if !accounts[0].is_signer {
        ActionView::Abort(VaultError::MissingSignature)
    } else {
        match VaultState::decoding(accounts[1].data) {
            None => ActionView::Abort(VaultError::InvalidAccountData),
            Some(state) => {
                if state.authority != accounts[0].key {
                    ActionView::Abort(VaultError::IllegalOwner)
                } else if accounts[2].key != state.token_account {
                    ActionView::Abort(VaultError::InvalidAccountData)
                } else if accounts[1].owner != program_id {
                    ActionView::Abort(VaultError::WrongOwner)
                } else if state.is_native {
                    planned_native(accounts, state)
                } else {
                    planned_token(accounts, state, holding)
                }
            },
        }
    }
}

/// What is left of closing once the holding account has been dealt with.
pub open spec fn released(accounts: Seq<AccountView>, state: VaultState) -> Pending {
    Pending::HoldingReleased {
        authority: accounts[0].key,
        state: accounts[1].key,
        state_bump: state.state_bump,
    }
}

/// Closing a native vault whose record and roles have been accepted.
pub open spec fn planned_native(accounts: Seq<AccountView>, state: VaultState) -> ActionView {
    if accounts[5].key != Address::system_program() {
        ActionView::Abort(VaultError::IncorrectProgramId)
    } else if accounts[2].owner != accounts[5].key {
        ActionView::Abort(VaultError::WrongOwner)
    } else {
        ActionView::Invoke {
            call: Call::Transfer {
                from: accounts[2].key,
                to: accounts[0].key,
                lamports: accounts[2].lamports,
            },
            accounts: seq![2usize, 0usize, 5usize],
            signer: Some(Signer::for_vault(accounts[1].key, state.vault_bump)),
            then: released(accounts, state),
        }
    }
}

/// Closing a token vault whose record and roles have been accepted.
pub open spec fn planned_token(
    accounts: Seq<AccountView>,
    state: VaultState,
    holding: Result<TokenAccount, VaultError>,
) -> ActionView {
    match holding {
        Err(e) => ActionView::Abort(e),
        Ok(token) => {
            if token.amount != 0 {
                ActionView::Abort(VaultError::NonZeroBalance)
            } else if accounts[4].key != Address::token_program() {
                ActionView::Abort(VaultError::IncorrectProgramId)
            } else if accounts[5].key != Address::system_program() {
                ActionView::Abort(VaultError::IncorrectProgramId)
            } else {
                ActionView::Invoke {
                    call: Call::CloseTokenAccount {
                        token_program: accounts[4].key,
                        account: accounts[2].key,
                        destination: accounts[0].key,
                        owner: accounts[1].key,
                    },
                    accounts: seq![2usize, 0usize, 1usize, 4usize],
                    signer: Some(Signer::for_vault(accounts[1].key, state.vault_bump)),
                    then: released(accounts, state),
                }
            }
        },
    }
}

/// The answer to a request to close the vault stored in `accounts[1]`.
pub open spec fn closing(program_id: Address, accounts: Seq<AccountView>) -> ActionView {
    planned(program_id, accounts, unpacked(accounts[2].data))
}

/// The last step of closing: the state account's whole balance, as it
/// stands in `accounts` now, goes to the authority.
pub open spec fn state_released(
    authority: Address,
    state: Address,
    state_bump: u8,
    accounts: Seq<AccountView>,
) -> ActionView {
    if accounts.len() < ACCOUNTS {
        ActionView::Abort(VaultError::NotEnoughAccounts)
    } else if accounts[1].key != state {
        ActionView::Abort(VaultError::InvalidAccountData)
    } else {
        ActionView::Invoke {
            call: Call::Transfer { from: state, to: authority, lamports: accounts[1].lamports },
            accounts: seq![1usize, 0usize, 5usize],
            signer: Some(Signer::for_state(authority, state_bump)),
            then: Pending::StateReleased,
        }
    }
}

/// Decides a request to close, given what the token sub-ledger makes of the
/// holding account.
pub fn plan(
    program_id: &Address,
    accounts: &[Account],
    holding: Result<TokenAccount, VaultError>,
) -> (action: Action)
    ensures
        action@ == planned(*program_id, accounts.deep_view(), holding),
{
    if accounts.len() < ACCOUNTS {
        return Action::Abort(VaultError::NotEnoughAccounts);
    }
    let authority = &accounts[0];
    let vault_state = &accounts[1];
    let vault_token_account = &accounts[2];
    let token_program = &accounts[4];
    let system_program = &accounts[5];
    if !authority.is_signer {
        return Action::Abort(VaultError::MissingSignature);
    }
    let state = match VaultState::try_from_slice(vault_state.data.as_slice()) {
        Ok(state) => state,
        Err(e) => {
            return Action::Abort(e);
        },
    };
    if state.authority != authority.key {
        return Action::Abort(VaultError::IllegalOwner);
    }
    if vault_token_account.key != state.token_account {
        return Action::Abort(VaultError::InvalidAccountData);
    }
    if vault_state.owner != *program_id {
        return Action::Abort(VaultError::WrongOwner);
    }
    let signer =
        Signer { namespace: Namespace::Vault, seed: vault_state.key, bump: state.vault_bump };
    let then = Pending::HoldingReleased {
        authority: authority.key,
        state: vault_state.key,
        state_bump: state.state_bump,
    };
    if state.is_native {
        if system_program.key != Address::new(SYSTEM_PROGRAM_ID) {
            return Action::Abort(VaultError::IncorrectProgramId);
        }
        if vault_token_account.owner != system_program.key {
            return Action::Abort(VaultError::WrongOwner);
        }
        Action::Invoke {
            call: Call::Transfer {
                from: vault_token_account.key,
                to: authority.key,
                lamports: vault_token_account.lamports,
            },
            accounts: vec![2, 0, 5],
            signer: Some(signer),
            then,
        }
    } else {
        let token = match holding {
            Ok(token) => token,
            Err(e) => {
                return Action::Abort(e);
            },
        };
        if token.amount != 0 {
            return Action::Abort(VaultError::NonZeroBalance);
        }
        if token_program.key != Address::new(TOKEN_PROGRAM_ID) {
            return Action::Abort(VaultError::IncorrectProgramId);
        }
        if system_program.key != Address::new(SYSTEM_PROGRAM_ID) {
            return Action::Abort(VaultError::IncorrectProgramId);
        }
        Action::Invoke {
            call: Call::CloseTokenAccount {
                token_program: token_program.key,
                account: vault_token_account.key,
                destination: authority.key,
                owner: vault_state.key,
            },
            accounts: vec![2, 0, 1, 4],
            signer: Some(signer),
            then,
        }
    }
}

/// Decides a request to close the vault stored in `accounts[1]`.
pub fn close(program_id: &Address, accounts: &[Account]) -> (action: Action)
    ensures
        action@ == closing(*program_id, accounts.deep_view()),
{
    if accounts.len() < ACCOUNTS {
        return Action::Abort(VaultError::NotEnoughAccounts);
    }
    let holding = unpack(accounts[2].data.as_slice());
    plan(program_id, accounts, holding)
}

/// Decides the last step of closing, once the holding account has been
/// dealt with.
pub fn release_state(
    authority: &Address,
    state: &Address,
    state_bump: u8,
    accounts: &[Account],
) -> (action: Action)
    ensures
        action@ == state_released(*authority, *state, state_bump, accounts.deep_view()),
{
    if accounts.len() < ACCOUNTS {
        return Action::Abort(VaultError::NotEnoughAccounts);
    }
    if accounts[1].key != *state {
        return Action::Abort(VaultError::InvalidAccountData);
    }
    Action::Invoke {
        call: Call::Transfer { from: *state, to: *authority, lamports: accounts[1].lamports },
        accounts: vec![1, 0, 5],
        signer: Some(Signer { namespace: Namespace::State, seed: *authority, bump: state_bump }),
        then: Pending::StateReleased,
    }
}

} // verus!
