//! A custodial vault for a ledger of accounts.
//!
//! One authority controls one vault, which holds either a native balance or
//! the balance of one token type under addresses that only this program can
//! sign for. Anyone may deposit; only the authority may withdraw or close.
//!
//! The crate holds the decisions of the four instructions and nothing of the
//! ledger itself: a handler reads a snapshot of the accounts it was given and
//! answers with an [`ledger::Action`], the next thing the host has to carry
//! out, until the instruction is complete or aborted.

pub mod account;
pub mod address;
pub mod conversation;
pub mod error;
pub mod instructions;
pub mod ledger;
pub mod lifecycle;
pub mod processor;
pub mod state;
pub mod wire;
