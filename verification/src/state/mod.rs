//! What is stored on the ledger: the vault's record and the token accounts it reads.

pub mod token_account;
pub mod vault_state;
