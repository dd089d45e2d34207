//! A custodial staking ledger: depositors stake a principal token, earn a
//! reward token at simple interest, and withdraw; an administrator sets the
//! rate and the thresholds. Every handler decides from plain values what is
//! to be persisted and transferred, and leaves carrying it out to the host.

pub mod account;
pub mod address;
pub mod admin;
pub mod authority;
pub mod codec;
pub mod cpi;
pub mod entrypoint;
pub mod error;
pub mod instruction;
pub mod ledger;
pub mod multihub_swap;
pub mod processor;
pub mod rate_swap;
pub mod reward;
pub mod settlement;
pub mod state;
pub mod token;
