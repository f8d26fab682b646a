//! What holds over the life of a vault, from its creation to its closing.
//!
//! The statements speak of the answers of the handlers alone. Where one
//! speaks of a balance, it reads a transfer as the host ledger carries it
//! out: the amount leaves the sender and reaches the receiver.

use crate::account::AccountView;
use crate::address::{state_address, Address};
use crate::error::VaultError;
use crate::instructions::close::{closing, state_released};
use crate::instructions::deposit::depositing;
use crate::instructions::initialize::{
    expected_holding, holding_prepared, initializing, opening, record_of, record_written,
};
use crate::instructions::withdraw::withdrawing;
use crate::ledger::{ActionView, Opening, Pending};
use crate::state::token_account::unpacked;
use crate::state::vault_state::VaultState;
use crate::wire::Call;
use vstd::prelude::*;

verus! {

/// Two snapshots show the same accounts in the same roles: the same
/// addresses in the same positions, signed for by the same principals.
pub open spec fn same_roles(first: Seq<AccountView>, second: Seq<AccountView>) -> bool {
    &&& first.len() == second.len()
    &&& forall|i: int|
        0 <= i < first.len() ==> first[i].key == (#[trigger] second[i]).key && first[i].is_signer
            == second[i].is_signer
}

/// The native balance of `who` once the host has carried out the transfer
/// `call`, where it was `balance` before.
pub open spec fn balance_after(balance: int, who: Address, call: Call) -> int
    recommends
        call is Transfer,
{
    match call {
        Call::Transfer { from, to, lamports } => balance - (if from == who {
            lamports as int
        } else {
            0
        }) + (if to == who {
            lamports as int
        } else {
            0
        }),
        _ => balance,
    }
}

/// There is one vault for an authority: a request to create one is accepted
/// only for the state account at the address derived from the authority who
/// signed, and what it leaves pending works on that account and for that
/// authority.
pub proof fn vault_is_stored_at_the_authoritys_address(
    program_id: Address,
    accounts: Seq<AccountView>,
    vault_bump: u8,
    state_bump: u8,
    is_native: bool,
)
    requires
        initializing(program_id, accounts, vault_bump, state_bump, is_native) is QueryRent,
    ensures
        accounts[0].is_signer,
        state_address(accounts[0].key, program_id) matches Some((address, _)) && address
            == accounts[1].key,
        initializing(program_id, accounts, vault_bump, state_bump, is_native)->QueryRent_then
            == Pending::RecordRent(
            opening(program_id, accounts, vault_bump, state_bump, is_native),
        ),
        opening(program_id, accounts, vault_bump, state_bump, is_native).authority
            == accounts[0].key,
        opening(program_id, accounts, vault_bump, state_bump, is_native).state == accounts[1].key,
{
}

/// The holding account that a record names is the one derived for the
/// vault. Creating a vault goes on past its state account only where the
/// holding account is at the address derived for it, and the record that is
/// written in the end names that account, the authority and the kind of the
/// vault as they were accepted.
pub proof fn record_names_the_derived_holding_account(o: Opening, accounts: Seq<AccountView>)
    requires
        !(holding_prepared(o) is Abort),
        record_written(o, accounts) is Store,
    ensures
        expected_holding(o) == Some(o.holding),
        VaultState::decoding(record_written(o, accounts)->Store_record) == Some(record_of(o)),
        record_of(o).token_account == o.holding,
        record_of(o).authority == o.authority,
        record_of(o).is_native == o.is_native,
        record_written(o, accounts)->Store_account == 1,
        accounts[1].key == o.state,
        record_written(o, accounts)->Store_record.len() <= accounts[1].data.len(),
{
    crate::state::vault_state::decoding_inverts_encoding(record_of(o));
}

/// A vault cannot be created twice. Where a request to create a vault was
/// accepted and its record has been stored in the state account, a second
/// request for the same authority is refused with `AlreadyInitialized`,
/// whatever its parameters.
pub proof fn second_initialize_is_refused(
    program_id: Address,
    first: Seq<AccountView>,
    vault_bump: u8,
    state_bump: u8,
    is_native: bool,
    second: Seq<AccountView>,
    second_vault_bump: u8,
    second_state_bump: u8,
    second_is_native: bool,
)
    requires
        initializing(program_id, first, vault_bump, state_bump, is_native) is QueryRent,
        same_roles(first, second),
        second[1].data == record_of(
            opening(program_id, first, vault_bump, state_bump, is_native),
        ).encoding(),
    ensures
        initializing(
            program_id,
            second,
            second_vault_bump,
            second_state_bump,
            second_is_native,
        ) == ActionView::Abort(VaultError::AlreadyInitialized),
{
    assert(second[0].key == first[0].key);
    assert(second[1].key == first[1].key);
}

/// A state account that holds data, or that this program owns, is never
/// initialised: with it a request to create a vault is refused.
pub proof fn initialize_spares_existing_state(
    program_id: Address,
    accounts: Seq<AccountView>,
    vault_bump: u8,
    state_bump: u8,
    is_native: bool,
)
    requires
        accounts[1].data.len() > 0 || accounts[1].owner == program_id,
    ensures
        initializing(program_id, accounts, vault_bump, state_bump, is_native) is Abort,
{
}

/// What a deposit puts into a native vault, a withdrawal of the same amount
/// takes out again: the holding account's balance is as before, and so is
/// that of an authority who deposited and withdrew for themselves. The
/// depositor and the receiver of the withdrawal are accounts other than the
/// holding account.
pub proof fn deposit_then_withdraw_restores_balances(
    deposit_accounts: Seq<AccountView>,
    withdraw_accounts: Seq<AccountView>,
    amount: u64,
    holding_balance: int,
    authority_balance: int,
)
    requires
        depositing(deposit_accounts, amount) is Invoke,
        withdrawing(withdraw_accounts, amount) is Invoke,
        VaultState::decoding(deposit_accounts[1].data) == VaultState::decoding(
            withdraw_accounts[1].data,
        ),
        VaultState::decoding(deposit_accounts[1].data)->0.is_native,
        deposit_accounts[0].key != deposit_accounts[3].key,
        withdraw_accounts[3].key != withdraw_accounts[2].key,
    ensures
        ({
            let vault = VaultState::decoding(deposit_accounts[1].data)->0;
            let put = depositing(deposit_accounts, amount)->Invoke_call;
            let taken = withdrawing(withdraw_accounts, amount)->Invoke_call;
            &&& put == Call::Transfer {
                from: deposit_accounts[0].key,
                to: vault.token_account,
                lamports: amount,
            }
            &&& taken == Call::Transfer {
                from: vault.token_account,
                to: withdraw_accounts[3].key,
                lamports: amount,
            }
            &&& balance_after(
                balance_after(holding_balance, vault.token_account, put),
                vault.token_account,
                taken,
            ) == holding_balance
            &&& deposit_accounts[0].key == vault.authority && withdraw_accounts[3].key
                == vault.authority ==> balance_after(
                balance_after(authority_balance, vault.authority, put),
                vault.authority,
                taken,
            ) == authority_balance
        }),
{
}

/// Only the recorded authority withdraws. Unless the first account signed
/// and is the authority that the vault's record names, a request to
/// withdraw is refused, whatever else it holds.
pub proof fn withdraw_needs_the_authority(accounts: Seq<AccountView>, amount: u64)
    ensures
        withdrawing(accounts, amount) is Abort || withdrawing(accounts, amount) is Invoke,
        withdrawing(accounts, amount) is Invoke ==> {
            &&& accounts.len() >= 6
            &&& accounts[0].is_signer
            &&& VaultState::decoding(accounts[1].data) is Some
            &&& VaultState::decoding(accounts[1].data)->0.authority == accounts[0].key
        },
{
}

/// A signer who is not the recorded authority is refused with
/// `IllegalOwner`, before anything else of the request is looked at.
pub proof fn withdraw_refuses_another_signer(accounts: Seq<AccountView>, amount: u64)
    requires
        accounts.len() >= 6,
        accounts[0].is_signer,
        VaultState::decoding(accounts[1].data) is Some,
        VaultState::decoding(accounts[1].data)->0.authority != accounts[0].key,
    ensures
        withdrawing(accounts, amount) == ActionView::Abort(VaultError::IllegalOwner),
{
}

/// The accounts of a transfer of tokens stand in their roles: the token
/// program is the fixed one and owns both token accounts, which the token
/// sub-ledger registers to `source_owner` and to `destination_owner`.
pub open spec fn token_roles(
    accounts: Seq<AccountView>,
    source_owner: Address,
    destination_owner: Address,
) -> bool {
    &&& accounts[4].key == Address::token_program()
    &&& accounts[2].owner == accounts[4].key
    &&& accounts[3].owner == accounts[4].key
    &&& unpacked(accounts[2].data) is Ok
    &&& unpacked(accounts[3].data) is Ok
    &&& unpacked(accounts[2].data)->Ok_0.owner == source_owner
    &&& unpacked(accounts[3].data)->Ok_0.owner == destination_owner
}

/// The source and the destination hold different assets.
pub open spec fn mixed_assets(accounts: Seq<AccountView>) -> bool {
    &&& unpacked(accounts[2].data) is Ok
    &&& unpacked(accounts[3].data) is Ok
    &&& unpacked(accounts[2].data)->Ok_0.mint != unpacked(accounts[3].data)->Ok_0.mint
}

/// A deposit into a token vault never moves one asset into an account of
/// another: it is refused, and with `InvalidAccountData` where every
/// account stands in its role.
pub proof fn deposit_refuses_mixed_assets(accounts: Seq<AccountView>, amount: u64)
    requires
        VaultState::decoding(accounts[1].data) is Some,
        !VaultState::decoding(accounts[1].data)->0.is_native,
        mixed_assets(accounts),
    ensures
        depositing(accounts, amount) is Abort,
        ({
            let vault = VaultState::decoding(accounts[1].data)->0;
            &&& accounts.len() >= 6
            &&& accounts[0].is_signer
            &&& accounts[3].key == vault.token_account
            &&& token_roles(accounts, accounts[0].key, accounts[1].key)
        }) ==> depositing(accounts, amount) == ActionView::Abort(VaultError::InvalidAccountData),
{
}

/// A withdrawal from a token vault never moves one asset into an account
/// of another: it is refused, and with `InvalidAccountData` where every
/// account stands in its role.
pub proof fn withdraw_refuses_mixed_assets(accounts: Seq<AccountView>, amount: u64)
    requires
        VaultState::decoding(accounts[1].data) is Some,
        !VaultState::decoding(accounts[1].data)->0.is_native,
        mixed_assets(accounts),
    ensures
        withdrawing(accounts, amount) is Abort,
        ({
            let vault = VaultState::decoding(accounts[1].data)->0;
            &&& accounts.len() >= 6
            &&& accounts[0].is_signer
            &&& vault.authority == accounts[0].key
            &&& accounts[2].key == vault.token_account
            &&& token_roles(accounts, accounts[1].key, accounts[0].key)
        }) ==> withdrawing(accounts, amount) == ActionView::Abort(VaultError::InvalidAccountData),
{
}

/// The accounts of a request to close stand in their roles: the authority
/// signed and is the one recorded, the holding account is the one recorded,
/// and the state account belongs to this program.
pub open spec fn closing_roles(program_id: Address, accounts: Seq<AccountView>) -> bool {
    &&& accounts.len() >= 6
    &&& accounts[0].is_signer
    &&& VaultState::decoding(accounts[1].data) is Some
    &&& VaultState::decoding(accounts[1].data)->0.authority == accounts[0].key
    &&& VaultState::decoding(accounts[1].data)->0.token_account == accounts[2].key
    &&& accounts[1].owner == program_id
}

/// A token vault that still holds a balance is never closed: the request is
/// refused, and with `NonZeroBalance` where every account stands in its
/// role.
pub proof fn close_refuses_funded_token_vault(program_id: Address, accounts: Seq<AccountView>)
    requires
        VaultState::decoding(accounts[1].data) is Some,
        !VaultState::decoding(accounts[1].data)->0.is_native,
        unpacked(accounts[2].data) is Ok,
        unpacked(accounts[2].data)->Ok_0.amount != 0,
    ensures
        closing(program_id, accounts) is Abort,
        closing_roles(program_id, accounts) ==> closing(program_id, accounts) == ActionView::Abort(
            VaultError::NonZeroBalance,
        ),
{
}

/// Once a token vault has been drained it can be closed. Where closing was
/// refused for the balance alone, and the holding account has since come
/// down to a balance of zero while every other account is as it was, the
/// request is accepted: the holding account is closed towards the
/// authority, on the word of the state account.
pub proof fn close_accepts_drained_token_vault(
    program_id: Address,
    funded: Seq<AccountView>,
    drained: Seq<AccountView>,
)
    requires
        closing_roles(program_id, funded),
        !VaultState::decoding(funded[1].data)->0.is_native,
        unpacked(funded[2].data) is Ok,
        unpacked(funded[2].data)->Ok_0.amount != 0,
        funded[4].key == Address::token_program(),
        funded[5].key == Address::system_program(),
        drained.len() == funded.len(),
        forall|i: int| 0 <= i < funded.len() && i != 2 ==> drained[i] == funded[i],
        drained[2].key == funded[2].key,
        unpacked(drained[2].data) is Ok,
        unpacked(drained[2].data)->Ok_0.amount == 0,
    ensures
        closing(program_id, funded) == ActionView::Abort(VaultError::NonZeroBalance),
        closing(program_id, drained) is Invoke,
        closing(program_id, drained)->Invoke_call == (Call::CloseTokenAccount {
            token_program: funded[4].key,
            account: funded[2].key,
            destination: funded[0].key,
            owner: funded[1].key,
        }),
{
    assert(drained[0] == funded[0]);
    assert(drained[1] == funded[1]);
    assert(drained[4] == funded[4]);
    assert(drained[5] == funded[5]);
}

/// Closing leaves nothing at the state address: its last step moves the
/// state account's whole balance to the authority.
pub proof fn close_empties_the_state_account(
    authority: Address,
    state: Address,
    state_bump: u8,
    accounts: Seq<AccountView>,
)
    requires
        state_released(authority, state, state_bump, accounts) is Invoke,
        authority != state,
    ensures
        ({
            let sweep = state_released(authority, state, state_bump, accounts)->Invoke_call;
            &&& sweep == Call::Transfer {
                from: state,
                to: authority,
                lamports: accounts[1].lamports,
            }
            &&& balance_after(accounts[1].lamports as int, state, sweep) == 0
        }),
{
}

/// A vault that was closed can be created again, as if it had never been.
/// Where a request to create a vault was accepted once, and the state
/// account is empty again and not owned by this program, a request for the
/// same authority is accepted again, and with the same parameters it leads
/// to the same record as the first time.
pub proof fn closed_vault_can_be_created_again(
    program_id: Address,
    first: Seq<AccountView>,
    vault_bump: u8,
    state_bump: u8,
    is_native: bool,
    again: Seq<AccountView>,
    again_vault_bump: u8,
    again_state_bump: u8,
    again_is_native: bool,
)
    requires
        initializing(program_id, first, vault_bump, state_bump, is_native) is QueryRent,
        same_roles(first, again),
        again[1].data.len() == 0,
        again[1].owner != program_id,
    ensures
        initializing(program_id, again, again_vault_bump, again_state_bump, again_is_native)
            is QueryRent,
        initializing(program_id, again, vault_bump, state_bump, is_native) == initializing(
            program_id,
            first,
            vault_bump,
            state_bump,
            is_native,
        ),
        record_of(opening(program_id, again, vault_bump, state_bump, is_native)) == record_of(
            opening(program_id, first, vault_bump, state_bump, is_native),
        ),
{
    assert(again[0].key == first[0].key);
    assert(again[1].key == first[1].key);
    assert(again[2].key == first[2].key);
    assert(again[3].key == first[3].key);
    assert(again[4].key == first[4].key);
    assert(again[5].key == first[5].key);
    assert(again[6].key == first[6].key);
}

} // verus!
