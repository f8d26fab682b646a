//! The stored layout of a vault's record.

use native_vault::address::Address;
use native_vault::error::VaultError;
use native_vault::state::vault_state::VaultState;

fn sample() -> VaultState {
    let mut authority = [0u8; 32];
    let mut mint = [0u8; 32];
    let mut holding = [0u8; 32];
    for i in 0..32 {
        authority[i] = i as u8;
        mint[i] = 100 + i as u8;
        holding[i] = 200 + i as u8;
    }
    VaultState {
        authority: Address::new(authority),
        token_mint: Address::new(mint),
        token_account: Address::new(holding),
        state_bump: 254,
        vault_bump: 253,
        is_native: true,
    }
}

#[test]
fn a_record_takes_ninety_nine_bytes() {
    assert_eq!(VaultState::space(), 99);
    assert_eq!(VaultState::space(), 32 + 32 + 32 + 1 + 1 + 1);
    assert_eq!(sample().encode().len(), 99);
}

#[test]
fn fields_lie_in_order_without_padding() {
    let record = sample();
    let data = record.encode();
    assert_eq!(&data[0..32], &record.authority.bytes[..]);
    assert_eq!(&data[32..64], &record.token_mint.bytes[..]);
    assert_eq!(&data[64..96], &record.token_account.bytes[..]);
    assert_eq!(data[96], 254);
    assert_eq!(data[97], 253);
    assert_eq!(data[98], 1);
    let token = VaultState { is_native: false, ..record };
    assert_eq!(token.encode()[98], 0);
    assert_eq!(&token.encode()[..98], &data[..98]);
}

#[test]
fn the_layout_is_that_of_borsh() {
    let record = sample();
    let expected = borsh::to_vec(&(
        record.authority.bytes,
        record.token_mint.bytes,
        record.token_account.bytes,
        record.state_bump,
        record.vault_bump,
        record.is_native,
    ))
    .unwrap();
    assert_eq!(record.encode(), expected);
}

#[test]
fn a_record_is_read_back_unchanged() {
    for is_native in [true, false] {
        let record = VaultState { is_native, ..sample() };
        assert_eq!(VaultState::try_from_slice(&record.encode()), Ok(record));
    }
}

#[test]
fn bytes_that_are_no_record_are_refused() {
    let good = sample().encode();
    assert_eq!(VaultState::try_from_slice(&[]), Err(VaultError::InvalidAccountData));
    assert_eq!(VaultState::try_from_slice(&good[..98]), Err(VaultError::InvalidAccountData));
    let mut long = good.clone();
    long.push(0);
    assert_eq!(VaultState::try_from_slice(&long), Err(VaultError::InvalidAccountData));
    let mut flag = good.clone();
    flag[98] = 2;
    assert_eq!(VaultState::try_from_slice(&flag), Err(VaultError::InvalidAccountData));
    flag[98] = 255;
    assert_eq!(VaultState::try_from_slice(&flag), Err(VaultError::InvalidAccountData));
    assert_eq!(VaultState::try_from_slice(&vec![0u8; 99]).map(|s| s.is_native), Ok(false));
}
