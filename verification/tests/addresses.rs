//! Identities and the addresses derived for a vault.

use std::str::FromStr;

use native_vault::address::{
    derive_address, derive_associated_token_address, Address, Namespace,
    ASSOCIATED_TOKEN_PROGRAM_ID, SYSTEM_PROGRAM_ID, TOKEN_PROGRAM_ID,
};
use solana_program::pubkey::Pubkey;

fn program() -> Pubkey {
    Pubkey::from_str("BwzUsvj7pXh8h2fEWCmawbSaGXjzi4yV1ftnztBJq3Ba").unwrap()
}

fn address(key: &Pubkey) -> Address {
    Address::new(key.to_bytes())
}

#[test]
fn fixed_programs_are_the_ledgers_own() {
    assert_eq!(SYSTEM_PROGRAM_ID, solana_program::system_program::id().to_bytes());
    assert_eq!(TOKEN_PROGRAM_ID, spl_token::id().to_bytes());
    assert_eq!(ASSOCIATED_TOKEN_PROGRAM_ID, spl_associated_token_account::id().to_bytes());
    assert_eq!(
        TOKEN_PROGRAM_ID,
        Pubkey::from_str("TokenkegQfeZyiNwAJbNbGKPFXCWuBvf9Ss623VQ5DA").unwrap().to_bytes()
    );
}

#[test]
fn tags_spell_state_and_vault() {
    assert_eq!(Namespace::State.tag_bytes(), b"state".to_vec());
    assert_eq!(Namespace::Vault.tag_bytes(), b"vault".to_vec());
}

#[test]
fn addresses_compare_by_their_bytes() {
    let mut bytes = [3u8; 32];
    let a = Address::new(bytes);
    assert!(a == Address::new([3u8; 32]));
    bytes[31] = 4;
    assert!(a != Address::new(bytes));
    bytes[31] = 3;
    bytes[0] = 2;
    assert!(a != Address::new(bytes));
    assert_eq!(a.to_vec(), vec![3u8; 32]);
    let mut data = [0u8; 32];
    for i in 0..32 {
        data[i] = i as u8;
    }
    assert_eq!(Address::new(data).to_vec(), data.to_vec());
}

#[test]
fn state_address_is_derived_from_the_authority() {
    for n in [1u8, 7, 200] {
        let authority = Pubkey::new_from_array([n; 32]);
        let (expected, bump) =
            Pubkey::find_program_address(&[b"state", authority.as_ref()], &program());
        assert_eq!(
            derive_address(Namespace::State, &address(&authority), &address(&program())),
            Some((address(&expected), bump))
        );
    }
}

#[test]
fn vault_address_is_derived_from_the_state_address() {
    let authority = Pubkey::new_from_array([7; 32]);
    let (state, _) = Pubkey::find_program_address(&[b"state", authority.as_ref()], &program());
    let (expected, bump) = Pubkey::find_program_address(&[b"vault", state.as_ref()], &program());
    let found = derive_address(Namespace::Vault, &address(&state), &address(&program()));
    assert_eq!(found, Some((address(&expected), bump)));
    assert_ne!(found.unwrap().0, address(&state));
    assert_ne!(
        found,
        derive_address(Namespace::State, &address(&state), &address(&program()))
    );
}

#[test]
fn derivation_depends_on_the_program() {
    let authority = address(&Pubkey::new_from_array([7; 32]));
    let here = derive_address(Namespace::State, &authority, &address(&program()));
    let there = derive_address(Namespace::State, &authority, &Address::new([1; 32]));
    assert!(here.is_some());
    assert!(there.is_some());
    assert_ne!(here.unwrap().0, there.unwrap().0);
}

#[test]
fn associated_token_address_is_the_sub_ledgers() {
    for (w, m) in [(1u8, 2u8), (9, 9), (250, 3)] {
        let wallet = Pubkey::new_from_array([w; 32]);
        let mint = Pubkey::new_from_array([m; 32]);
        let expected =
            spl_associated_token_account::get_associated_token_address(&wallet, &mint);
        assert_eq!(
            derive_associated_token_address(&address(&wallet), &address(&mint)),
            Some(address(&expected))
        );
        let (by_seeds, _) = Pubkey::find_program_address(
            &[&wallet.to_bytes(), &spl_token::id().to_bytes(), &mint.to_bytes()],
            &spl_associated_token_account::id(),
        );
        assert_eq!(expected, by_seeds);
    }
}
