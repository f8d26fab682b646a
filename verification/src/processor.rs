//! The dispatcher: from an envelope to the handler of its instruction, and
//! from what is pending to the handler's next step.

use crate::account::{Account, AccountView};
use crate::address::Address;
use crate::error::VaultError;
use crate::instructions::close::{close, closing, release_state, state_released};
use crate::instructions::deposit::{deposit, depositing};
use crate::instructions::initialize::{
    fund_holding, fund_record, holding_funded, holding_prepared, initialize, initializing,
    prepare_holding, record_funded, record_written, write_record,
};
use crate::instructions::withdraw::{withdraw, withdrawing};
use crate::instructions::VaultInstruction;
use crate::ledger::{Action, ActionView, Pending};
use vstd::prelude::*;

verus! {

/// The entry to the vault's instructions.
pub struct Processor {}

impl Processor {
    /// The first answer to the instruction that `instruction_data` carries:
    /// that of its handler on the accounts as they were given, or `Encoding`
    /// where the bytes carry none.
    pub open spec fn processing(
        program_id: Address,
        accounts: Seq<AccountView>,
        instruction_data: Seq<u8>,
    ) -> ActionView {
        match VaultInstruction::decoding(instruction_data) {
            None => ActionView::Abort(VaultError::Encoding),
            Some(VaultInstruction::Initialize { vault_bump, state_bump, is_native }) => {
                initializing(program_id, accounts, vault_bump, state_bump, is_native)
            },
            Some(VaultInstruction::Deposit { amount }) => depositing(accounts, amount),
            Some(VaultInstruction::Withdraw { amount }) => withdrawing(accounts, amount),
            Some(VaultInstruction::Close) => closing(program_id, accounts),
        }
    }

    /// The answer once the host has carried out the action that held
    /// `pending`: `accounts` is the snapshot taken after it, `reply` the
    /// balance that a rent query was answered with.
    pub open spec fn resuming(
        pending: Pending,
        accounts: Seq<AccountView>,
        reply: u64,
    ) -> ActionView {
        match pending {
            Pending::RecordRent(o) => record_funded(o, reply),
            Pending::RecordAccount(o) => holding_prepared(o),
            Pending::HoldingRent(o) => holding_funded(o, reply),
            Pending::HoldingAccount(o) => record_written(o, accounts),
            Pending::RecordStored => ActionView::Complete,
            Pending::Transferred => ActionView::Complete,
            Pending::HoldingReleased { authority, state, state_bump } => state_released(
                authority,
                state,
                state_bump,
                accounts,
            ),
            Pending::StateReleased => ActionView::Complete,
        }
    }

    /// Decodes the envelope and hands the accounts, untouched, to the
    /// handler of its instruction.
    pub fn process(program_id: &Address, accounts: &[Account], instruction_data: &[u8]) -> (action:
        Action)
        ensures
            action@ == Processor::processing(
                *program_id,
                accounts.deep_view(),
                instruction_data@,
            ),
    {
        let instruction = match VaultInstruction::try_from_slice(instruction_data) {
            Ok(instruction) => instruction,
            Err(e) => {
                return Action::Abort(e);
            },
        };
        match instruction {
            VaultInstruction::Initialize { vault_bump, state_bump, is_native } => initialize(
                program_id,
                accounts,
                vault_bump,
                state_bump,
                is_native,
            ),
            VaultInstruction::Deposit { amount } => deposit(program_id, accounts, amount),
            VaultInstruction::Withdraw { amount } => withdraw(program_id, accounts, amount),
            VaultInstruction::Close => close(program_id, accounts),
        }
    }

    /// Takes an instruction up again after the host has carried out an
    /// action.
    pub fn resume(pending: &Pending, accounts: &[Account], reply: u64) -> (action: Action)
        ensures
            action@ == Processor::resuming(*pending, accounts.deep_view(), reply),
    {
        match pending {
            Pending::RecordRent(o) => fund_record(o, reply),
            Pending::RecordAccount(o) => prepare_holding(o),
            Pending::HoldingRent(o) => fund_holding(o, reply),
            Pending::HoldingAccount(o) => write_record(o, accounts),
            Pending::RecordStored => Action::Complete,
            Pending::Transferred => Action::Complete,
            Pending::HoldingReleased { authority, state, state_bump } => release_state(
                authority,
                state,
                *state_bump,
                accounts,
            ),
            Pending::StateReleased => Action::Complete,
        }
    }
}

} // verus!
