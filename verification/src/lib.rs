//! Governance and authorization core of a regulated stablecoin ledger.
//!
//! The crate holds the role registry, the authorization guards, the
//! minter-allowance ledger, the multi-signature request store with its approval
//! state machine, and the dispatcher that turns an approved action into its
//! effect. Every function takes the caller and the clock as plain values and
//! returns its outcome as a value; nothing here reads or writes the outside
//! world.

pub mod account;
pub mod account_map;
pub mod allowances;
pub mod decimal;
pub mod error;
pub mod events;
pub mod fiat_token;
pub mod fiat_token_action;
pub mod guards;
pub mod keyed;
pub mod minting;
pub mod multisig;
pub mod rbac;
pub mod role;
pub mod state;
pub mod transitions;
