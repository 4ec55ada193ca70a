//! Instruction dispatch and state transitions of two ledger programs: a signed
//! counter and a vote tally.
//!
//! The host ledger is modelled as an ordered list of accounts, each an
//! address, an owner, a balance and a byte buffer. A program never creates an
//! account itself. Where an instruction needs one, `allocation_request` says
//! which; the host creates it and hands its answer to `entrypoints`, which
//! decodes the instruction, checks the accounts and writes the new state.
//! Every failure leaves every account as it was.

pub mod account;
pub mod address;
pub mod counter;
pub mod error;
pub mod vote;
pub mod wire;
