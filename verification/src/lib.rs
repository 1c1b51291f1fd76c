//! Verified core of a small on-chain record store.
//!
//! A user's records, an address and a profile, live in storage accounts
//! whose addresses are derived from the user's identity. The controller
//! derives those addresses, holds every storage handle it is given to
//! them, has the accounts created and forwards updates; the two record
//! programs own the accounts and write them.
//!
//! - [`identity`]: the 32-byte identities of users, programs and accounts.
//! - [`error`]: the ways an invocation fails.
//! - [`codec`]: the fixed-width wire format and its round-trip laws.
//! - [`deriver`]: derivation of canonical addresses and their seeds.
//! - [`account`]: storage account handles.
//! - [`address_program`], [`profile_program`]: the record programs.
//! - [`ecomm_contract`]: the controller.

pub mod account;
pub mod address_program;
pub mod codec;
pub mod deriver;
pub mod ecomm_contract;
pub mod error;
pub mod identity;
pub mod profile_program;
