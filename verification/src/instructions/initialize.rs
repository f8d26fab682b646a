//! Creating a vault.
//!
//! Accounts, in order: the authority (signer), the state account, the asset,
//! the holding account, the token program, the system program, the
//! associated-token program.

use crate::account::{Account, AccountView};
use crate::address::{
    associated_token_address, derive_address, derive_associated_token_address, state_address,
    vault_address, Address, Namespace, ASSOCIATED_TOKEN_PROGRAM_ID, SYSTEM_PROGRAM_ID,
    TOKEN_PROGRAM_ID,
};
use crate::error::VaultError;
use crate::ledger::{Action, ActionView, Opening, Pending, Signer};
use crate::state::vault_state::VaultState;
use crate::wire::Call;
use vstd::prelude::*;

verus! {

/// How many accounts the instruction names.
pub const ACCOUNTS: usize = 7;

/// The accounts and parameters that the rest of the instruction works on.
pub open spec fn opening(
    program_id: Address,
    accounts: Seq<AccountView>,
    vault_bump: u8,
    state_bump: u8,
    is_native: bool,
) -> Opening {
    Opening {
        program_id,
        authority: accounts[0].key,
        state: accounts[1].key,
        mint: accounts[2].key,
        holding: accounts[3].key,
        token_program: accounts[4].key,
        associated_token_program: accounts[6].key,
        vault_bump,
        state_bump,
        is_native,
    }
}

/// The answer to a request to create a vault, where `expected_state` is the
/// state address derived for the authority.
///
/// The authority must have signed, the state account must be at the derived
/// address, and it must be empty and not yet owned by this program. The host
/// is then asked what a record's storage costs.
pub open spec fn planned(
    program_id: Address,
    accounts: Seq<AccountView>,
    vault_bump: u8,
    state_bump: u8,
    is_native: bool,
    expected_state: Option<(Address, u8)>,
) -> ActionView {
    if accounts.len() < ACCOUNTS {
        ActionView::Abort(VaultError::NotEnoughAccounts)
    } else if !accounts[0].is_signer {
        ActionView::Abort(VaultError::MissingSignature)
    } else {
        match expected_state {
            None => ActionView::Abort(VaultError::AddressUnavailable),
            Some((address, _)) => {
                if accounts[1].key != address {
                    ActionView::Abort(VaultError::InvalidAccountData)
                } else if accounts[1].data.len() > 0 || accounts[1].owner == program_id {
                    ActionView::Abort(VaultError::AlreadyInitialized)
                } else {
                    ActionView::QueryRent {
                        space: 99,
                        then: Pending::RecordRent(
                            opening(program_id, accounts, vault_bump, state_bump, is_native),
                        ),
                    }
                }
            },
        }
    }
}

/// The answer to a request to create a vault.
pub open spec fn initializing(
    program_id: Address,
    accounts: Seq<AccountView>,
    vault_bump: u8,
    state_bump: u8,
    is_native: bool,
) -> ActionView {
    planned(
        program_id,
        accounts,
        vault_bump,
        state_bump,
        is_native,
        state_address(accounts[0].key, program_id),
    )
}

/// Once the rent of a record is known: the state account is created with
/// that balance, sized for one record, owned by this program and paid by the
/// authority. The program signs for the state address.
pub open spec fn record_funded(o: Opening, rent: u64) -> ActionView {
    ActionView::Invoke {
        call: Call::CreateAccount {
            from: o.authority,
            to: o.state,
            lamports: rent,
            space: 99,
            owner: o.program_id,
        },
        accounts: seq![0usize, 1usize, 5usize],
        signer: Some(Signer::for_state(o.authority, o.state_bump)),
        then: Pending::RecordAccount(o),
    }
}

/// The address at which the holding account of the vault has to be: the
/// vault address of the state account for a native vault, the token account
/// associated with the state account for a token vault.
pub open spec fn expected_holding(o: Opening) -> Option<Address> {
    if o.is_native {
        match vault_address(o.state, o.program_id) {
            Some((address, _)) => Some(address),
            None => None,
        }
    } else {
        associated_token_address(o.state, o.mint)
    }
}

/// Once the state account exists, where `expected` is the address derived
/// for the holding account.
///
/// A token vault needs the two token programs to be the fixed ones and has
/// its holding account created by the associated-token program, with the
/// state account as its owner. A native vault asks what an empty account
/// costs. Either way the holding account must be at the derived address.
pub open spec fn holding_planned(o: Opening, expected: Option<Address>) -> ActionView {
    if !o.is_native && o.token_program != Address::token_program() {
        ActionView::Abort(VaultError::IncorrectProgramId)
    } else if !o.is_native && o.associated_token_program != Address::associated_token_program() {
        ActionView::Abort(VaultError::IncorrectProgramId)
    } else {
        match expected {
            None => ActionView::Abort(VaultError::AddressUnavailable),
            Some(address) => {
                if o.holding != address {
                    ActionView::Abort(VaultError::InvalidAccountData)
                } else if o.is_native {
                    ActionView::QueryRent { space: 0, then: Pending::HoldingRent(o) }
                } else {
                    ActionView::Invoke {
                        call: Call::CreateAssociatedTokenAccount {
                            funder: o.authority,
                            wallet: o.state,
                            mint: o.mint,
                            token_program: o.token_program,
                        },
                        accounts: seq![0usize, 1usize, 3usize, 2usize, 4usize, 5usize, 6usize],
                        signer: None,
                        then: Pending::HoldingAccount(o),
                    }
                }
            },
        }
    }
}

/// Once the state account exists.
pub open spec fn holding_prepared(o: Opening) -> ActionView {
    holding_planned(o, expected_holding(o))
}

/// Once the rent of an empty account is known: the native holding account is
/// created with that balance and no storage, owned by the system program and
/// paid by the authority. The program signs for the vault address.
pub open spec fn holding_funded(o: Opening, rent: u64) -> ActionView {
    ActionView::Invoke {
        call: Call::CreateAccount {
            from: o.authority,
            to: o.holding,
            lamports: rent,
            space: 0,
            owner: Address::system_program(),
        },
        accounts: seq![0usize, 3usize, 5usize],
        signer: Some(Signer::for_vault(o.state, o.vault_bump)),
        then: Pending::HoldingAccount(o),
    }
}

/// The record of the vault that is being created.
pub open spec fn record_of(o: Opening) -> VaultState {
    VaultState {
        authority: o.authority,
        token_mint: o.mint,
        token_account: o.holding,
        state_bump: o.state_bump,
        vault_bump: o.vault_bump,
        is_native: o.is_native,
    }
}

/// Once the holding account exists: the record is written into the state
/// account, which by now must have room for it.
pub open spec fn record_written(o: Opening, accounts: Seq<AccountView>) -> ActionView {
    if accounts.len() < ACCOUNTS {
        ActionView::Abort(VaultError::NotEnoughAccounts)
    } else if accounts[1].key != o.state {
        ActionView::Abort(VaultError::InvalidAccountData)
    } else if accounts[1].data.len() < VaultState::size() {
        ActionView::Abort(VaultError::Encoding)
    } else {
        ActionView::Store {
            account: 1,
            record: record_of(o).encoding(),
            then: Pending::RecordStored,
        }
    }
}

/// Decides a request to create a vault, given the state address derived for
/// the authority.
pub fn plan(
    program_id: &Address,
    accounts: &[Account],
    vault_bump: u8,
    state_bump: u8,
    is_native: bool,
    expected_state: Option<(Address, u8)>,
) -> (action: Action)
    ensures
        action@ == planned(
            *program_id,
            accounts.deep_view(),
            vault_bump,
            state_bump,
            is_native,
            expected_state,
        ),
{
    if accounts.len() < ACCOUNTS {
        return Action::Abort(VaultError::NotEnoughAccounts);
    }
    let authority = &accounts[0];
    let vault_state = &accounts[1];
    if !authority.is_signer {
        return Action::Abort(VaultError::MissingSignature);
    }
    let expected = match expected_state {
        Some((address, _)) => address,
        None => {
            return Action::Abort(VaultError::AddressUnavailable);
        },
    };
    if vault_state.key != expected {
        return Action::Abort(VaultError::InvalidAccountData);
    }
    if vault_state.data.len() > 0 || vault_state.owner == *program_id {
        return Action::Abort(VaultError::AlreadyInitialized);
    }
    Action::QueryRent {
        space: VaultState::space(),
        then: Pending::RecordRent(
            Opening {
                program_id: *program_id,
                authority: authority.key,
                state: vault_state.key,
                mint: accounts[2].key,
                holding: accounts[3].key,
                token_program: accounts[4].key,
                associated_token_program: accounts[6].key,
                vault_bump,
                state_bump,
                is_native,
            },
        ),
    }
}

/// Decides a request to create a vault for the authority in `accounts[0]`.
pub fn initialize(
    program_id: &Address,
    accounts: &[Account],
    vault_bump: u8,
    state_bump: u8,
    is_native: bool,
) -> (action: Action)
    ensures
        action@ == initializing(
            *program_id,
            accounts.deep_view(),
            vault_bump,
            state_bump,
            is_native,
        ),
{
    if accounts.len() < ACCOUNTS {
        return Action::Abort(VaultError::NotEnoughAccounts);
    }
    if !accounts[0].is_signer {
        return Action::Abort(VaultError::MissingSignature);
    }
    let expected_state = derive_address(Namespace::State, &accounts[0].key, program_id);
    plan(program_id, accounts, vault_bump, state_bump, is_native, expected_state)
}

/// Decides the creation of the state account, once its rent is known.
pub fn fund_record(o: &Opening, rent: u64) -> (action: Action)
    ensures
        action@ == record_funded(*o, rent),
{
    Action::Invoke {
        call: Call::CreateAccount {
            from: o.authority,
            to: o.state,
            lamports: rent,
            space: 99,
            owner: o.program_id,
        },
        accounts: vec![0, 1, 5],
        signer: Some(Signer { namespace: Namespace::State, seed: o.authority, bump: o.state_bump }),
        then: Pending::RecordAccount(*o),
    }
}

/// Decides how the holding account comes to be, given the address derived
/// for it.
pub fn plan_holding(o: &Opening, expected: Option<Address>) -> (action: Action)
    ensures
        action@ == holding_planned(*o, expected),
{
    if !o.is_native {
        if o.token_program != Address::new(TOKEN_PROGRAM_ID) {
            return Action::Abort(VaultError::IncorrectProgramId);
        }
        if o.associated_token_program != Address::new(ASSOCIATED_TOKEN_PROGRAM_ID) {
            return Action::Abort(VaultError::IncorrectProgramId);
        }
    }
    let address = match expected {
        Some(address) => address,
        None => {
            return Action::Abort(VaultError::AddressUnavailable);
        },
    };
    if o.holding != address {
        return Action::Abort(VaultError::InvalidAccountData);
    }
    if o.is_native {
        Action::QueryRent { space: 0, then: Pending::HoldingRent(*o) }
    } else {
        Action::Invoke {
            call: Call::CreateAssociatedTokenAccount {
                funder: o.authority,
                wallet: o.state,
                mint: o.mint,
                token_program: o.token_program,
            },
            accounts: vec![0, 1, 3, 2, 4, 5, 6],
            signer: None,
            then: Pending::HoldingAccount(*o),
        }
    }
}

/// Decides how the holding account comes to be, once the state account
/// exists.
pub fn prepare_holding(o: &Opening) -> (action: Action)
    ensures
        action@ == holding_prepared(*o),
{
    if o.is_native {
        let expected = match derive_address(Namespace::Vault, &o.state, &o.program_id) {
            Some((address, _)) => Some(address),
            None => None,
        };
        plan_holding(o, expected)
    } else {
        if o.token_program != Address::new(TOKEN_PROGRAM_ID) {
            return Action::Abort(VaultError::IncorrectProgramId);
        }
        if o.associated_token_program != Address::new(ASSOCIATED_TOKEN_PROGRAM_ID) {
            return Action::Abort(VaultError::IncorrectProgramId);
        }
        let expected = derive_associated_token_address(&o.state, &o.mint);
        plan_holding(o, expected)
    }
}

/// Decides the creation of the native holding account, once its rent is
/// known.
pub fn fund_holding(o: &Opening, rent: u64) -> (action: Action)
    ensures
        action@ == holding_funded(*o, rent),
{
    Action::Invoke {
        call: Call::CreateAccount {
            from: o.authority,
            to: o.holding,
            lamports: rent,
            space: 0,
            owner: Address::new(SYSTEM_PROGRAM_ID),
        },
        accounts: vec![0, 3, 5],
        signer: Some(Signer { namespace: Namespace::Vault, seed: o.state, bump: o.vault_bump }),
        then: Pending::HoldingAccount(*o),
    }
}

/// Decides the writing of the record, once the holding account exists.
pub fn write_record(o: &Opening, accounts: &[Account]) -> (action: Action)
    ensures
        action@ == record_written(*o, accounts.deep_view()),
{
    if accounts.len() < ACCOUNTS {
        return Action::Abort(VaultError::NotEnoughAccounts);
    }
    if accounts[1].key != o.state {
        return Action::Abort(VaultError::InvalidAccountData);
    }
    if accounts[1].data.len() < VaultState::space() {
        return Action::Abort(VaultError::Encoding);
    }
    let record = VaultState {
        authority: o.authority,
        token_mint: o.mint,
        token_account: o.holding,
        state_bump: o.state_bump,
        vault_bump: o.vault_bump,
        is_native: o.is_native,
    };
    Action::Store { account: 1, record: record.encode(), then: Pending::RecordStored }
}

} // verus!
