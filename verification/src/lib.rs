//! A verified model of a stake-deposit interceptor program: an on-chain
//! intermediary that custodies the pool tokens minted by a wrapped
//! staking pool behind a time-decaying exit fee.
//!
//! The crate is organised around the on-chain protocol itself:
//! account records and the fee decay (`state`), their byte layout (`codec`),
//! deterministic program-derived addresses (`pda`), the wire-level
//! instruction set and its builders (`instruction`), the instruction
//! processors and their laws (`processor`), the pure decision logic of the
//! off-chain claim cranker (`monitor`), addresses and well-known program ids
//! (`pubkey`), the error taxonomy (`error`), and the trusted interfaces of
//! the foreign programs the interceptor works with (`programs`).

pub mod codec;
pub mod error;
pub mod instruction;
pub mod monitor;
pub mod pda;
pub mod processor;
pub mod programs;
pub mod pubkey;
pub mod state;

pub use pubkey::Pubkey;
