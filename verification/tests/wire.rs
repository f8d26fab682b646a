//! The instructions that carry the vault's calls to other programs.

use native_vault::address::{Address, Namespace, TOKEN_PROGRAM_ID};
use native_vault::error::VaultError;
use native_vault::ledger::Signer;
use native_vault::wire::{AccountMeta, Call, Instruction};
use solana_program::pubkey::Pubkey;

fn key(n: u8) -> Address {
    Address::new([n; 32])
}

fn pubkey(a: &Address) -> Pubkey {
    Pubkey::new_from_array(a.bytes)
}

fn lowered(ix: solana_program::instruction::Instruction) -> Instruction {
    Instruction {
        program_id: Address::new(ix.program_id.to_bytes()),
        accounts: ix
            .accounts
            .iter()
            .map(|m| AccountMeta {
                pubkey: Address::new(m.pubkey.to_bytes()),
                is_signer: m.is_signer,
                is_writable: m.is_writable,
            })
            .collect(),
        data: ix.data,
    }
}

fn meta(pubkey: Address, is_signer: bool, is_writable: bool) -> AccountMeta {
    AccountMeta { pubkey, is_signer, is_writable }
}

#[test]
fn transfer_is_the_system_programs() {
    let call = Call::Transfer { from: key(1), to: key(2), lamports: 0x0102 };
    let ix = call.instruction().unwrap();
    assert_eq!(ix.program_id, Address::new([0; 32]));
    assert_eq!(ix.accounts, vec![meta(key(1), true, true), meta(key(2), false, true)]);
    assert_eq!(ix.data, vec![2u8, 0, 0, 0, 2, 1, 0, 0, 0, 0, 0, 0]);
    assert_eq!(
        ix,
        lowered(solana_program::system_instruction::transfer(
            &pubkey(&key(1)),
            &pubkey(&key(2)),
            0x0102
        ))
    );
}

#[test]
fn create_account_is_the_system_programs() {
    let call =
        Call::CreateAccount { from: key(1), to: key(2), lamports: 7, space: 99, owner: key(3) };
    let ix = call.instruction().unwrap();
    assert_eq!(ix.program_id, Address::new([0; 32]));
    assert_eq!(ix.accounts, vec![meta(key(1), true, true), meta(key(2), true, true)]);
    let mut data = vec![0u8, 0, 0, 0, 7, 0, 0, 0, 0, 0, 0, 0, 99, 0, 0, 0, 0, 0, 0, 0];
    data.extend([3u8; 32]);
    assert_eq!(ix.data, data);
    assert_eq!(
        ix,
        lowered(solana_program::system_instruction::create_account(
            &pubkey(&key(1)),
            &pubkey(&key(2)),
            7,
            99,
            &pubkey(&key(3))
        ))
    );
}

#[test]
fn token_transfer_is_the_token_programs() {
    let token_program = Address::new(TOKEN_PROGRAM_ID);
    let call = Call::TokenTransfer {
        token_program,
        source: key(1),
        destination: key(2),
        authority: key(3),
        amount: 5,
    };
    let ix = call.instruction().unwrap();
    assert_eq!(ix.program_id, token_program);
    assert_eq!(
        ix.accounts,
        vec![meta(key(1), false, true), meta(key(2), false, true), meta(key(3), true, false)]
    );
    assert_eq!(ix.data, vec![3u8, 5, 0, 0, 0, 0, 0, 0, 0]);
    assert_eq!(
        ix,
        lowered(
            spl_token::instruction::transfer(
                &spl_token::id(),
                &pubkey(&key(1)),
                &pubkey(&key(2)),
                &pubkey(&key(3)),
                &[],
                5
            )
            .unwrap()
        )
    );
}

#[test]
fn close_account_is_the_token_programs() {
    let token_program = Address::new(TOKEN_PROGRAM_ID);
    let call = Call::CloseTokenAccount {
        token_program,
        account: key(1),
        destination: key(2),
        owner: key(3),
    };
    let ix = call.instruction().unwrap();
    assert_eq!(ix.program_id, token_program);
    assert_eq!(
        ix.accounts,
        vec![meta(key(1), false, true), meta(key(2), false, true), meta(key(3), true, false)]
    );
    assert_eq!(ix.data, vec![9u8]);
    assert_eq!(
        ix,
        lowered(
            spl_token::instruction::close_account(
                &spl_token::id(),
                &pubkey(&key(1)),
                &pubkey(&key(2)),
                &pubkey(&key(3)),
                &[]
            )
            .unwrap()
        )
    );
}

#[test]
fn token_calls_need_the_token_program() {
    let transfer = Call::TokenTransfer {
        token_program: key(8),
        source: key(1),
        destination: key(2),
        authority: key(3),
        amount: 5,
    };
    assert_eq!(transfer.instruction(), Err(VaultError::IncorrectProgramId));
    let close = Call::CloseTokenAccount {
        token_program: Address::new([0; 32]),
        account: key(1),
        destination: key(2),
        owner: key(3),
    };
    assert_eq!(close.instruction(), Err(VaultError::IncorrectProgramId));
}

#[test]
fn associated_token_account_is_created_by_its_program() {
    let token_program = Address::new(TOKEN_PROGRAM_ID);
    let call = Call::CreateAssociatedTokenAccount {
        funder: key(1),
        wallet: key(2),
        mint: key(3),
        token_program,
    };
    let ix = call.instruction().unwrap();
    let associated = spl_associated_token_account::get_associated_token_address(
        &pubkey(&key(2)),
        &pubkey(&key(3)),
    );
    assert_eq!(ix.program_id, Address::new(spl_associated_token_account::id().to_bytes()));
    assert_eq!(
        ix.accounts,
        vec![
            meta(key(1), true, true),
            meta(Address::new(associated.to_bytes()), false, true),
            meta(key(2), false, false),
            meta(key(3), false, false),
            meta(Address::new([0; 32]), false, false),
            meta(token_program, false, false),
        ]
    );
    assert_eq!(ix.data, vec![0u8]);
    assert_eq!(
        ix,
        lowered(spl_associated_token_account::instruction::create_associated_token_account(
            &pubkey(&key(1)),
            &pubkey(&key(2)),
            &pubkey(&key(3)),
            &spl_token::id()
        ))
    );
}

#[test]
fn signer_seeds_are_tag_seed_and_bump() {
    let state = Signer { namespace: Namespace::State, seed: key(4), bump: 254 };
    assert_eq!(state.signer_seeds(), vec![b"state".to_vec(), vec![4u8; 32], vec![254u8]]);
    let vault = Signer { namespace: Namespace::Vault, seed: key(5), bump: 0 };
    assert_eq!(vault.signer_seeds(), vec![b"vault".to_vec(), vec![5u8; 32], vec![0u8]]);
}

#[test]
fn signer_seeds_sign_for_the_derived_address() {
    let program = Address::new([77; 32]);
    let (address, bump) =
        native_vault::address::derive_address(Namespace::Vault, &key(5), &program).unwrap();
    let signer = Signer { namespace: Namespace::Vault, seed: key(5), bump };
    let seeds = signer.signer_seeds();
    let parts: Vec<&[u8]> = seeds.iter().map(|s| s.as_slice()).collect();
    let signed = Pubkey::create_program_address(&parts, &pubkey(&program)).unwrap();
    assert_eq!(Address::new(signed.to_bytes()), address);
}
