//! A registry of independently created fungible-token ledgers.
//!
//! Any caller can mint a new ledger on demand; one shared registry tracks all
//! of them under dense numeric ids. The accounting engine (transfers,
//! approvals, delegated transfers) is verified: per-token supply is conserved,
//! balances and allowances never go negative, and every operation either
//! applies in full or leaves the stored state exactly as it was.

pub mod acct_map;
pub mod laws;
pub mod pair_map;
pub mod registry;
pub mod token;
pub mod types;
