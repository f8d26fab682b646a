//! An instruction from its first answer to its last, as a host that carries
//! out every action sees it.

use crate::account::AccountView;
use crate::address::{associated_token_address, vault_address, Address};
use crate::instructions::close::{closing, state_released};
use crate::instructions::deposit::depositing;
use crate::instructions::initialize::{
    holding_funded, holding_prepared, initializing, opening, record_funded, record_of,
};
use crate::instructions::withdraw::withdrawing;
use crate::ledger::{ActionView, Pending};
use crate::processor::Processor;
use crate::state::vault_state::VaultState;
use vstd::prelude::*;

verus! {

/// What the host comes back with once it has carried out an action: the
/// accounts as they stand now, and the balance asked for where the action
/// was a rent query.
pub struct Reply {
    pub accounts: Seq<AccountView>,
    pub rent: u64,
}

/// What an answer leaves pending, unless it ends the instruction.
pub open spec fn pending(action: ActionView) -> Option<Pending> {
    match action {
        ActionView::Complete => None,
        ActionView::Abort(_) => None,
        ActionView::QueryRent { then, .. } => Some(then),
        ActionView::Invoke { then, .. } => Some(then),
        ActionView::Store { then, .. } => Some(then),
    }
}

/// The answers of an instruction in order, `first` included, where the host
/// carried out each action and came back with the next of `replies`. The
/// list ends with the answer that ends the instruction, or with the one
/// that no reply is left for.
pub open spec fn answers(first: ActionView, replies: Seq<Reply>) -> Seq<ActionView>
    decreases replies.len(),
{
    if replies.len() == 0 || pending(first) is None {
        seq![first]
    } else {
        seq![first] + answers(
            Processor::resuming(pending(first)->0, replies[0].accounts, replies[0].rent),
            replies.drop_first(),
        )
    }
}

/// Whatever a handler asks another program for can be put on the wire: a
/// call to the token sub-ledger is only ever made to the token program, and
/// an associated token account is only created where its address exists.
pub proof fn every_call_can_be_built(
    program_id: Address,
    accounts: Seq<AccountView>,
    instruction_data: Seq<u8>,
    pending: Pending,
    reply: u64,
)
    ensures
        Processor::processing(program_id, accounts, instruction_data) is Invoke
            ==> Processor::processing(program_id, accounts, instruction_data)->Invoke_call.wire()
            is Ok,
        Processor::resuming(pending, accounts, reply) is Invoke ==> Processor::resuming(
            pending,
            accounts,
            reply,
        )->Invoke_call.wire() is Ok,
{
}

/// Whatever a handler asks for names accounts that the instruction was
/// given: every position of an action lies within the list of accounts,
/// and a record that is to be written fits the account it is written to.
/// Of an instruction that is taken up again this holds where it is given
/// as many accounts as the longest instruction names, as it is when the
/// list is the one that it began with.
pub proof fn every_action_names_given_accounts(
    program_id: Address,
    accounts: Seq<AccountView>,
    instruction_data: Seq<u8>,
    pending: Pending,
    reply: u64,
)
    ensures
        Processor::processing(program_id, accounts, instruction_data) matches ActionView::Invoke {
            accounts: positions,
            ..
        } ==> forall|i: int|
            0 <= i < positions.len() ==> (#[trigger] positions[i]) < accounts.len(),
        accounts.len() >= 7 ==> (Processor::resuming(pending, accounts, reply)
            matches ActionView::Invoke { accounts: positions, .. } ==> forall|i: int|
            0 <= i < positions.len() ==> (#[trigger] positions[i]) < accounts.len()),
        Processor::resuming(pending, accounts, reply) matches ActionView::Store {
            account,
            record,
            ..
        } ==> account < accounts.len() && record.len() <= accounts[account as int].data.len(),
        !(Processor::processing(program_id, accounts, instruction_data) is Store),
{
}

/// An answer that ends the instruction is the last, whatever the host
/// would go on to say.
pub proof fn nothing_follows_the_end(first: ActionView, replies: Seq<Reply>)
    requires
        first is Complete || first is Abort,
    ensures
        answers(first, replies) == seq![first],
{
}

/// A native vault is created in five steps: the rent of a record is asked
/// for, the state account is created with it, the rent of an empty account
/// is asked for, the holding account is created with it, and the record is
/// written. The holding account is the one at the vault address, and the
/// state account has room for the record once it was created.
pub proof fn native_vault_is_created_in_five_steps(
    program_id: Address,
    accounts: Seq<AccountView>,
    vault_bump: u8,
    state_bump: u8,
    replies: Seq<Reply>,
)
    requires
        initializing(program_id, accounts, vault_bump, state_bump, true) is QueryRent,
        vault_address(accounts[1].key, program_id) matches Some((address, _)) && address
            == accounts[3].key,
        replies.len() == 5,
        replies[3].accounts.len() >= 7,
        replies[3].accounts[1].key == accounts[1].key,
        replies[3].accounts[1].data.len() >= VaultState::size(),
    ensures
        ({
            let o = opening(program_id, accounts, vault_bump, state_bump, true);
            answers(initializing(program_id, accounts, vault_bump, state_bump, true), replies)
                == seq![
                ActionView::QueryRent { space: 99, then: Pending::RecordRent(o) },
                record_funded(o, replies[0].rent),
                ActionView::QueryRent { space: 0, then: Pending::HoldingRent(o) },
                holding_funded(o, replies[2].rent),
                ActionView::Store {
                    account: 1,
                    record: record_of(o).encoding(),
                    then: Pending::RecordStored,
                },
                ActionView::Complete,
            ]
        }),
{
    let o = opening(program_id, accounts, vault_bump, state_bump, true);
    let first = initializing(program_id, accounts, vault_bump, state_bump, true);
    let r1 = replies.drop_first();
    let r2 = r1.drop_first();
    let r3 = r2.drop_first();
    let r4 = r3.drop_first();
    let r5 = r4.drop_first();
    assert(r1[0] == replies[1] && r2[0] == replies[2] && r3[0] == replies[3] && r4[0]
        == replies[4]);
    assert(r5.len() == 0);
    reveal_with_fuel(answers, 7);
    assert(answers(first, replies) =~= seq![
        ActionView::QueryRent { space: 99, then: Pending::RecordRent(o) },
        record_funded(o, replies[0].rent),
        ActionView::QueryRent { space: 0, then: Pending::HoldingRent(o) },
        holding_funded(o, replies[2].rent),
        ActionView::Store {
            account: 1,
            record: record_of(o).encoding(),
            then: Pending::RecordStored,
        },
        ActionView::Complete,
    ]);
}

/// A token vault is created in four steps: the rent of a record is asked
/// for, the state account is created with it, the holding account is
/// created by the associated-token program, and the record is written. The
/// two token programs are the fixed ones, the holding account is the token
/// account associated with the state account, and the state account has
/// room for the record once it was created.
pub proof fn token_vault_is_created_in_four_steps(
    program_id: Address,
    accounts: Seq<AccountView>,
    vault_bump: u8,
    state_bump: u8,
    replies: Seq<Reply>,
)
    requires
        initializing(program_id, accounts, vault_bump, state_bump, false) is QueryRent,
        accounts[4].key == Address::token_program(),
        accounts[6].key == Address::associated_token_program(),
        associated_token_address(accounts[1].key, accounts[2].key) == Some(accounts[3].key),
        replies.len() == 4,
        replies[2].accounts.len() >= 7,
        replies[2].accounts[1].key == accounts[1].key,
        replies[2].accounts[1].data.len() >= VaultState::size(),
    ensures
        ({
            let o = opening(program_id, accounts, vault_bump, state_bump, false);
            answers(initializing(program_id, accounts, vault_bump, state_bump, false), replies)
                == seq![
                ActionView::QueryRent { space: 99, then: Pending::RecordRent(o) },
                record_funded(o, replies[0].rent),
                holding_prepared(o),
                ActionView::Store {
                    account: 1,
                    record: record_of(o).encoding(),
                    then: Pending::RecordStored,
                },
                ActionView::Complete,
            ]
        }),
{
    let o = opening(program_id, accounts, vault_bump, state_bump, false);
    let first = initializing(program_id, accounts, vault_bump, state_bump, false);
    let r1 = replies.drop_first();
    let r2 = r1.drop_first();
    let r3 = r2.drop_first();
    let r4 = r3.drop_first();
    assert(r1[0] == replies[1] && r2[0] == replies[2] && r3[0] == replies[3]);
    assert(r4.len() == 0);
    reveal_with_fuel(answers, 6);
    assert(answers(first, replies) =~= seq![
        ActionView::QueryRent { space: 99, then: Pending::RecordRent(o) },
        record_funded(o, replies[0].rent),
        holding_prepared(o),
        ActionView::Store {
            account: 1,
            record: record_of(o).encoding(),
            then: Pending::RecordStored,
        },
        ActionView::Complete,
    ]);
}

/// A deposit and a withdrawal take one step: whatever is not refused is one
/// transfer, and nothing follows it.
pub proof fn transfers_take_one_step(accounts: Seq<AccountView>, amount: u64, replies: Seq<Reply>)
    requires
        replies.len() >= 1,
    ensures
        depositing(accounts, amount) is Invoke ==> answers(depositing(accounts, amount), replies)
            == seq![depositing(accounts, amount), ActionView::Complete],
        withdrawing(accounts, amount) is Invoke ==> answers(
            withdrawing(accounts, amount),
            replies,
        ) == seq![withdrawing(accounts, amount), ActionView::Complete],
        !(depositing(accounts, amount) is Invoke) ==> answers(
            depositing(accounts, amount),
            replies,
        ) == seq![depositing(accounts, amount)],
        !(withdrawing(accounts, amount) is Invoke) ==> answers(
            withdrawing(accounts, amount),
            replies,
        ) == seq![withdrawing(accounts, amount)],
{
    reveal_with_fuel(answers, 3);
    let d = depositing(accounts, amount);
    let w = withdrawing(accounts, amount);
    if d is Invoke {
        assert(answers(d, replies) =~= seq![d, ActionView::Complete]);
    }
    if w is Invoke {
        assert(answers(w, replies) =~= seq![w, ActionView::Complete]);
    }
}

/// A vault is closed in two steps: the holding account is emptied or
/// closed, then the state account's balance, as it stands after that, goes
/// to the authority.
pub proof fn vault_is_closed_in_two_steps(
    program_id: Address,
    accounts: Seq<AccountView>,
    replies: Seq<Reply>,
)
    requires
        closing(program_id, accounts) is Invoke,
        replies.len() == 2,
        replies[0].accounts.len() >= 6,
        replies[0].accounts[1].key == accounts[1].key,
    ensures
        answers(closing(program_id, accounts), replies) == seq![
            closing(program_id, accounts),
            state_released(
                accounts[0].key,
                accounts[1].key,
                VaultState::decoding(accounts[1].data)->0.state_bump,
                replies[0].accounts,
            ),
            ActionView::Complete,
        ],
        state_released(
            accounts[0].key,
            accounts[1].key,
            VaultState::decoding(accounts[1].data)->0.state_bump,
            replies[0].accounts,
        ) is Invoke,
{
    let first = closing(program_id, accounts);
    let r1 = replies.drop_first();
    let r2 = r1.drop_first();
    assert(r1[0] == replies[1]);
    assert(r2.len() == 0);
    reveal_with_fuel(answers, 4);
    assert(answers(first, replies) =~= seq![
        first,
        state_released(
            accounts[0].key,
            accounts[1].key,
            VaultState::decoding(accounts[1].data)->0.state_bump,
            replies[0].accounts,
        ),
        ActionView::Complete,
    ]);
}

} // verus!
