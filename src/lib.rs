//! A two-party escrow: a maker deposits asset A in a vault owned by a program derived
//! address and names a price in asset B; a taker pays that price to claim the vault, or
//! the maker cancels and takes the deposit back.
//!
//! Each operation is decided here from a snapshot of the accounts handed to it: it is
//! refused with an [`error::EscrowError`], or accepted as a plan of
//! [`plan::Effect`] steps that the host carries out all or none.

pub mod account;
pub mod address;
pub mod derivation;
pub mod error;
pub mod instructions;
pub mod ledger;
pub mod make;
pub mod plan;
pub mod processor;
pub mod refund;
pub mod state;
pub mod take;
pub mod token;
