//! The calls that the vault asks other programs to carry out, and the
//! instructions that carry them on the wire.

use crate::address::{program_address, try_find_program_address, Address};
use crate::error::VaultError;
use solana_program::pubkey::Pubkey;
use vstd::prelude::*;

verus! {

/// One account named by an instruction, with what the instruction asks of it.
#[derive(Clone, Copy, Debug, PartialEq, Eq)]
pub struct AccountMeta {
    /// The account's address.
    pub pubkey: Address,
    /// Whether the instruction needs the account's signature.
    pub is_signer: bool,
    /// Whether the instruction may change the account.
    pub is_writable: bool,
}

/// An instruction for another program, in the form that the host carries.
#[derive(Clone, Debug, PartialEq, Eq)]
pub struct Instruction {
    /// The program that executes the instruction.
    pub program_id: Address,
    /// The accounts that it works on.
    pub accounts: Vec<AccountMeta>,
    /// What it is asked to do, as the program reads it.
    pub data: Vec<u8>,
}

/// The mathematical value of an [`Instruction`].
pub struct InstructionView {
    pub program_id: Address,
    pub accounts: Seq<AccountMeta>,
    pub data: Seq<u8>,
}

impl View for Instruction {
    type V = InstructionView;

    open spec fn view(&self) -> InstructionView {
        InstructionView { program_id: self.program_id, accounts: self.accounts@, data: self.data@ }
    }
}

/// A request to another program, by its meaning.
#[derive(Clone, Copy, Debug, PartialEq, Eq)]
pub enum Call {
    /// The host ledger allocates `space` bytes at `to`, owned by `owner` and
    /// funded with `lamports` from `from`.
    CreateAccount { from: Address, to: Address, lamports: u64, space: u64, owner: Address },
    /// The host ledger moves `lamports` of native balance from `from` to `to`.
    Transfer { from: Address, to: Address, lamports: u64 },
    /// The token sub-ledger's factory creates the token account associated
    /// with `wallet` for the asset `mint`, paid by `funder`.
    CreateAssociatedTokenAccount {
        funder: Address,
        wallet: Address,
        mint: Address,
        token_program: Address,
    },
    /// The token sub-ledger moves `amount` from `source` to `destination` on
    /// the word of `authority`.
    TokenTransfer {
        token_program: Address,
        source: Address,
        destination: Address,
        authority: Address,
        amount: u64,
    },
    /// The token sub-ledger closes `account` on the word of `owner` and hands
    /// what funded it to `destination`.
    CloseTokenAccount {
        token_program: Address,
        account: Address,
        destination: Address,
        owner: Address,
    },
}

/// The instruction that `solana_program::system_instruction::create_account`
/// builds.
pub uninterp spec fn system_create_account(
    from: Address,
    to: Address,
    lamports: u64,
    space: u64,
    owner: Address,
) -> InstructionView;

/// The instruction that `solana_program::system_instruction::transfer` builds.
pub uninterp spec fn system_transfer(from: Address, to: Address, lamports: u64) -> InstructionView;

/// The instruction that
/// `spl_associated_token_account::instruction::create_associated_token_account`
/// builds.
pub uninterp spec fn associated_token_account_creation(
    funder: Address,
    wallet: Address,
    mint: Address,
    token_program: Address,
) -> InstructionView;

/// The instruction that `spl_token::instruction::transfer` builds for a
/// single authority.
pub uninterp spec fn token_transfer(
    token_program: Address,
    source: Address,
    destination: Address,
    authority: Address,
    amount: u64,
) -> InstructionView;

/// The instruction that `spl_token::instruction::close_account` builds for a
/// single owner.
pub uninterp spec fn token_account_closure(
    token_program: Address,
    account: Address,
    destination: Address,
    owner: Address,
) -> InstructionView;

/// Calls `solana_program::system_instruction::create_account`, which
/// serialises its arguments into an instruction for the host ledger. The
/// contract names the instruction and claims nothing else of it.
#[verifier::external_body]
fn build_create_account(
    from: &Address,
    to: &Address,
    lamports: u64,
    space: u64,
    owner: &Address,
) -> (r: Instruction)
    ensures
        r@ == system_create_account(*from, *to, lamports, space, *owner),
{
    let key = |a: &Address| Pubkey::new_from_array(a.bytes);
    let ix = solana_program::system_instruction::create_account(
        &key(from), &key(to), lamports, space, &key(owner),
    );
    let meta = |m: &solana_program::instruction::AccountMeta| AccountMeta {
        pubkey: Address { bytes: m.pubkey.to_bytes() },
        is_signer: m.is_signer,
        is_writable: m.is_writable,
    };
    Instruction {
        program_id: Address { bytes: ix.program_id.to_bytes() },
        accounts: ix.accounts.iter().map(meta).collect(),
        data: ix.data,
    }
}

/// Calls `solana_program::system_instruction::transfer`, which serialises
/// its arguments into an instruction for the host ledger. The contract names
/// the instruction and claims nothing else of it.
#[verifier::external_body]
fn build_transfer(from: &Address, to: &Address, lamports: u64) -> (r: Instruction)
    ensures
        r@ == system_transfer(*from, *to, lamports),
{
    let key = |a: &Address| Pubkey::new_from_array(a.bytes);
    let ix = solana_program::system_instruction::transfer(&key(from), &key(to), lamports);
    let meta = |m: &solana_program::instruction::AccountMeta| AccountMeta {
        pubkey: Address { bytes: m.pubkey.to_bytes() },
        is_signer: m.is_signer,
        is_writable: m.is_writable,
    };
    Instruction {
        program_id: Address { bytes: ix.program_id.to_bytes() },
        accounts: ix.accounts.iter().map(meta).collect(),
        data: ix.data,
    }
}

/// Calls
/// `spl_associated_token_account::instruction::create_associated_token_account`.
/// It derives the associated address of the wallet for the asset and panics
/// where none exists, which `requires` leaves out. The contract names the
/// instruction and claims nothing else of it.
#[verifier::external_body]
fn build_create_associated_token_account(
    funder: &Address,
    wallet: &Address,
    mint: &Address,
    token_program: &Address,
) -> (r: Instruction)
    requires
        program_address(
            seq![wallet.bytes@, token_program.bytes@, mint.bytes@],
            Address::associated_token_program(),
        ) is Some,
    ensures
        r@ == associated_token_account_creation(*funder, *wallet, *mint, *token_program),
{
    let key = |a: &Address| Pubkey::new_from_array(a.bytes);
    let ix = spl_associated_token_account::instruction::create_associated_token_account(
        &key(funder), &key(wallet), &key(mint), &key(token_program),
    );
    let meta = |m: &solana_program::instruction::AccountMeta| AccountMeta {
        pubkey: Address { bytes: m.pubkey.to_bytes() },
        is_signer: m.is_signer,
        is_writable: m.is_writable,
    };
    Instruction {
        program_id: Address { bytes: ix.program_id.to_bytes() },
        accounts: ix.accounts.iter().map(meta).collect(),
        data: ix.data,
    }
}

/// Calls `spl_token::instruction::transfer` with no further signers. It
/// refuses a program that is not the token program with `IncorrectProgramId`
/// and builds the instruction otherwise; the contract states when it refuses
/// and names the instruction.
#[verifier::external_body]
fn build_token_transfer(
    token_program: &Address,
    source: &Address,
    destination: &Address,
    authority: &Address,
    amount: u64,
) -> (r: Result<Instruction, VaultError>)
    ensures
        match r {
            Ok(ix) => *token_program == Address::token_program() && ix@ == token_transfer(
                *token_program,
                *source,
                *destination,
                *authority,
                amount,
            ),
            Err(e) => *token_program != Address::token_program() && e
                == VaultError::IncorrectProgramId,
        },
{
    let key = |a: &Address| Pubkey::new_from_array(a.bytes);
    let built = spl_token::instruction::transfer(
        &key(token_program), &key(source), &key(destination), &key(authority), &[], amount,
    );
    let meta = |m: &solana_program::instruction::AccountMeta| AccountMeta {
        pubkey: Address { bytes: m.pubkey.to_bytes() },
        is_signer: m.is_signer,
        is_writable: m.is_writable,
    };
    let Ok(ix) = built else { return Err(VaultError::IncorrectProgramId) };
    let program_id = Address { bytes: ix.program_id.to_bytes() };
    Ok(Instruction { program_id, accounts: ix.accounts.iter().map(meta).collect(), data: ix.data })
}

/// Calls `spl_token::instruction::close_account` with no further signers.
/// It refuses a program that is not the token program with
/// `IncorrectProgramId` and builds the instruction otherwise; the contract
/// states when it refuses and names the instruction.
#[verifier::external_body]
fn build_close_account(
    token_program: &Address,
    account: &Address,
    destination: &Address,
    owner: &Address,
) -> (r: Result<Instruction, VaultError>)
    ensures
        match r {
            Ok(ix) => *token_program == Address::token_program() && ix@ == token_account_closure(
                *token_program,
                *account,
                *destination,
                *owner,
            ),
            Err(e) => *token_program != Address::token_program() && e
                == VaultError::IncorrectProgramId,
        },
{
    let key = |a: &Address| Pubkey::new_from_array(a.bytes);
    let built = spl_token::instruction::close_account(
        &key(token_program), &key(account), &key(destination), &key(owner), &[],
    );
    let meta = |m: &solana_program::instruction::AccountMeta| AccountMeta {
        pubkey: Address { bytes: m.pubkey.to_bytes() },
        is_signer: m.is_signer,
        is_writable: m.is_writable,
    };
    let Ok(ix) = built else { return Err(VaultError::IncorrectProgramId) };
    let program_id = Address { bytes: ix.program_id.to_bytes() };
    Ok(Instruction { program_id, accounts: ix.accounts.iter().map(meta).collect(), data: ix.data })
}

impl Call {
    /// The instruction that carries the call, or why none can be built: the
    /// token sub-ledger's builders refuse any program but the token program,
    /// and an associated token account needs an address to exist.
    pub open spec fn wire(self) -> Result<InstructionView, VaultError> {
        match self {
            Call::CreateAccount { from, to, lamports, space, owner } => Ok(
                system_create_account(from, to, lamports, space, owner),
            ),
            Call::Transfer { from, to, lamports } => Ok(system_transfer(from, to, lamports)),
            Call::CreateAssociatedTokenAccount { funder, wallet, mint, token_program } => {
                if program_address(
                    seq![wallet.bytes@, token_program.bytes@, mint.bytes@],
                    Address::associated_token_program(),
                ) is Some {
                    Ok(associated_token_account_creation(funder, wallet, mint, token_program))
                } else {
                    Err(VaultError::AddressUnavailable)
                }
            },
            Call::TokenTransfer { token_program, source, destination, authority, amount } => {
                if token_program == Address::token_program() {
                    Ok(token_transfer(token_program, source, destination, authority, amount))
                } else {
                    Err(VaultError::IncorrectProgramId)
                }
            },
            Call::CloseTokenAccount { token_program, account, destination, owner } => {
                if token_program == Address::token_program() {
                    Ok(token_account_closure(token_program, account, destination, owner))
                } else {
                    Err(VaultError::IncorrectProgramId)
                }
            },
        }
    }

    /// Builds the instruction that carries the call.
    pub fn instruction(&self) -> (r: Result<Instruction, VaultError>)
        ensures
            match r {
                Ok(ix) => self.wire() == Ok::<InstructionView, VaultError>(ix@),
                Err(e) => self.wire() == Err::<InstructionView, VaultError>(e),
            },
    {
        match self {
            Call::CreateAccount { from, to, lamports, space, owner } => Ok(
                build_create_account(from, to, *lamports, *space, owner),
            ),
            Call::Transfer { from, to, lamports } => Ok(build_transfer(from, to, *lamports)),
            Call::CreateAssociatedTokenAccount { funder, wallet, mint, token_program } => {
                let mut seeds: Vec<Vec<u8>> = Vec::new();
                seeds.push(wallet.to_vec());
                seeds.push(token_program.to_vec());
                seeds.push(mint.to_vec());
                assert(seeds.deep_view() =~~= seq![
                    wallet.bytes@,
                    token_program.bytes@,
                    mint.bytes@,
                ]);
                let program = Address::new(crate::address::ASSOCIATED_TOKEN_PROGRAM_ID);
                match try_find_program_address(&seeds, &program) {
                    Some(_) => Ok(
                        build_create_associated_token_account(funder, wallet, mint, token_program),
                    ),
                    None => Err(VaultError::AddressUnavailable),
                }
            },
            Call::TokenTransfer { token_program, source, destination, authority, amount } => {
                build_token_transfer(token_program, source, destination, authority, *amount)
            },
            Call::CloseTokenAccount { token_program, account, destination, owner } => {
                build_close_account(token_program, account, destination, owner)
            },
        }
    }
}

} // verus!
