//! Verified core of the DONUT referral matrix program: account keys, the
//! 3-slot referral matrix, the upline chain, the airdrop week rules, the
//! byte layouts of the accounts it reads, and the registration flows as
//! state machines whose actions a runtime shell performs.
pub mod key;
pub mod state;
pub mod error;
pub mod matrix;
pub mod checks;
pub mod codec;
pub mod solana;
pub mod airdrop;
pub mod notify;
pub mod token;
pub mod effects;
pub mod cascade;
pub mod flow;
pub mod deposit;
pub mod deposit_exec;
pub mod base;
pub mod admin;
pub mod decimal;
pub mod laws;
pub mod records;
pub mod walk;
pub mod layout;
