//! Depositing into a vault: anyone may, out of an account of their own.
//!
//! Accounts, in order: the depositor (signer), the state account, the
//! source, the destination (the vault's holding account), the token
//! program, the system program.

use crate::account::{Account, AccountView};
use crate::address::{Address, SYSTEM_PROGRAM_ID, TOKEN_PROGRAM_ID};
use crate::error::VaultError;
use crate::ledger::{Action, ActionView, Pending};
use crate::state::token_account::{unpack, unpacked, TokenAccount};
use crate::state::vault_state::VaultState;
use crate::wire::Call;
use vstd::prelude::*;

verus! {

/// How many accounts the instruction names.
pub const ACCOUNTS: usize = 6;

/// The answer to a request to deposit `amount`, where `source` and
/// `destination` are what the token sub-ledger makes of the two accounts of
/// those names.
///
/// The checks stand in the order in which they are made; the first that
/// fails decides the error. The depositor must have signed and the
/// destination must be the holding account that the record names. The
/// depositor's own signature authorises the transfer, so nothing is signed
/// by the program. An amount of zero is not refused.
pub open spec fn planned(
    accounts: Seq<AccountView>,
    amount: u64,
    source: Result<TokenAccount, VaultError>,
    destination: Result<TokenAccount, VaultError>,
) -> ActionView {
    if accounts.len() < ACCOUNTS {
        ActionView::Abort(VaultError::NotEnoughAccounts)
    } else if !accounts[0].is_signer {
        ActionView::Abort(VaultError::MissingSignature)
    } else {
        match VaultState::decoding(accounts[1].data) {
            None => ActionView::Abort(VaultError::InvalidAccountData),
            Some(state) => {
                if accounts[3].key != state.token_account {
                    ActionView::Abort(VaultError::InvalidAccountData)
                } else if state.is_native {
                    planned_native(accounts, amount)
                } else {
                    planned_token(accounts, amount, source, destination)
                }
            },
        }
    }
}

/// Depositing into a native vault whose holding account has been accepted.
pub open spec fn planned_native(accounts: Seq<AccountView>, amount: u64) -> ActionView {
    if accounts[5].key != Address::system_program() {
        ActionView::Abort(VaultError::IncorrectProgramId)
    } else {
        ActionView::Invoke {
            call: Call::Transfer { from: accounts[0].key, to: accounts[3].key, lamports: amount },
            accounts: seq![0usize, 3usize, 5usize],
            signer: None,
            then: Pending::Transferred,
        }
    }
}

/// Depositing into a token vault whose holding account has been accepted:
/// both accounts belong to the token program, the source is the
/// depositor's, the destination is the state account's, and both hold one
/// asset.
pub open spec fn planned_token(
    accounts: Seq<AccountView>,
    amount: u64,
    source: Result<TokenAccount, VaultError>,
    destination: Result<TokenAccount, VaultError>,
) -> ActionView {
    if accounts[4].key != Address::token_program() {
        ActionView::Abort(VaultError::IncorrectProgramId)
    } else if accounts[2].owner != accounts[4].key {
        ActionView::Abort(VaultError::WrongOwner)
    } else if accounts[3].owner != accounts[4].key {
        ActionView::Abort(VaultError::WrongOwner)
    } else {
        match (source, destination) {
            (Err(e), _) => ActionView::Abort(e),
            (Ok(_), Err(e)) => ActionView::Abort(e),
            (Ok(from), Ok(to)) => {
                if from.owner != accounts[0].key {
                    ActionView::Abort(VaultError::WrongOwner)
                } else if to.owner != accounts[1].key {
                    ActionView::Abort(VaultError::WrongOwner)
                } else if from.mint != to.mint {
                    ActionView::Abort(VaultError::InvalidAccountData)
                } else {
                    ActionView::Invoke {
                        call: Call::TokenTransfer {
                            token_program: accounts[4].key,
                            source: accounts[2].key,
                            destination: accounts[3].key,
                            authority: accounts[0].key,
                            amount,
                        },
                        accounts: seq![2usize, 3usize, 0usize, 4usize],
                        signer: None,
                        then: Pending::Transferred,
                    }
                }
            },
        }
    }
}

/// The answer to a request to deposit `amount`.
pub open spec fn depositing(accounts: Seq<AccountView>, amount: u64) -> ActionView {
    planned(accounts, amount, unpacked(accounts[2].data), unpacked(accounts[3].data))
}

/// Decides a request to deposit, given what the token sub-ledger makes of
/// the source and of the destination.
pub fn plan(
    accounts: &[Account],
    amount: u64,
    source: Result<TokenAccount, VaultError>,
    destination: Result<TokenAccount, VaultError>,
) -> (action: Action)
    ensures
        action@ == planned(accounts.deep_view(), amount, source, destination),
{
    if accounts.len() < ACCOUNTS {
        return Action::Abort(VaultError::NotEnoughAccounts);
    }
    let depositor = &accounts[0];
    let vault_state = &accounts[1];
    let source_account = &accounts[2];
    let destination_account = &accounts[3];
    let token_program = &accounts[4];
    let system_program = &accounts[5];
    if !depositor.is_signer {
        return Action::Abort(VaultError::MissingSignature);
    }
    let state = match VaultState::try_from_slice(vault_state.data.as_slice()) {
        Ok(state) => state,
        Err(e) => {
            return Action::Abort(e);
        },
    };
    if destination_account.key != state.token_account {
        return Action::Abort(VaultError::InvalidAccountData);
    }
    if state.is_native {
        if system_program.key != Address::new(SYSTEM_PROGRAM_ID) {
            return Action::Abort(VaultError::IncorrectProgramId);
        }
        Action::Invoke {
            call: Call::Transfer {
                from: depositor.key,
                to: destination_account.key,
                lamports: amount,
            },
            accounts: vec![0, 3, 5],
            signer: None,
            then: Pending::Transferred,
        }
    } else {
        if token_program.key != Address::new(TOKEN_PROGRAM_ID) {
            return Action::Abort(VaultError::IncorrectProgramId);
        }
        if source_account.owner != token_program.key {
            return Action::Abort(VaultError::WrongOwner);
        }
        if destination_account.owner != token_program.key {
            return Action::Abort(VaultError::WrongOwner);
        }
        let from = match source {
            Ok(token) => token,
            Err(e) => {
                return Action::Abort(e);
            },
        };
        let to = match destination {
            Ok(token) => token,
            Err(e) => {
                return Action::Abort(e);
            },
        };
        if from.owner != depositor.key {
            return Action::Abort(VaultError::WrongOwner);
        }
        if to.owner != vault_state.key {
            return Action::Abort(VaultError::WrongOwner);
        }
        if from.mint != to.mint {
            return Action::Abort(VaultError::InvalidAccountData);
        }
        Action::Invoke {
            call: Call::TokenTransfer {
                token_program: token_program.key,
                source: source_account.key,
                destination: destination_account.key,
                authority: depositor.key,
                amount,
            },
            accounts: vec![2, 3, 0, 4],
            signer: None,
            then: Pending::Transferred,
        }
    }
}

/// Decides a request to deposit `amount` into the vault stored in
/// `accounts[1]`.
pub fn deposit(_program_id: &Address, accounts: &[Account], amount: u64) -> (action: Action)
    ensures
        action@ == depositing(accounts.deep_view(), amount),
{
    if accounts.len() < ACCOUNTS {
        return Action::Abort(VaultError::NotEnoughAccounts);
    }
    let source = unpack(accounts[2].data.as_slice());
    let destination = unpack(accounts[3].data.as_slice());
    plan(accounts, amount, source, destination)
}

} // verus!
