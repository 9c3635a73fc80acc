//! A single-item escrowed auction and the token registry it settles against,
//! written as deterministic state machines over explicit state values.

pub mod auction;
pub mod cosmwasm;
pub mod erc721;
pub mod types;
