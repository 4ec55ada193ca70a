//! The vote program: one tally per account, opened by a payer and closed
//! into a destination account.

pub mod entrypoint;
pub mod error;
pub mod instructions;
pub mod processor;
pub mod state;
