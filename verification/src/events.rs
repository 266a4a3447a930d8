//! The events of the contract.

pub mod fiat_token_event;
