//! The state and rules of a set of ledger contracts, verified: a token faucet,
//! a 1:1 token wrapper, a price oracle, community content moderation and the
//! storage of a token vault.
//!
//! Each contract is a value that holds its stored entries as plain data; its
//! methods decide, update that data, and hand back what the host has to carry
//! out (a token transfer) or publish (an event).

pub mod address;
pub mod keyed_map;
pub mod transfer;

pub mod faucet;
pub mod moderation;
pub mod oracle;
pub mod wrapped_token;

pub mod errors;
pub mod storage;
pub mod types;
