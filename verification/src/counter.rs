//! The counter program: one signed 64-bit count per account.

pub mod entrypoint;
pub mod error;
pub mod instructions;
pub mod processor;
pub mod state;
