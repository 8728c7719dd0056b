//! A verified core for an on-chain lottery: a deterministic seed accumulator,
//! the open/closed game state machine with its buy and draw guards, an
//! append-only participant ledger, winner selection from a finalized seed,
//! and calendar-aware expiry computation.
//!
//! Host concerns (storage, token transfers, message encoding, NFT tickets)
//! stay outside; every operation here works on plain values the host supplies.

pub mod auth;
pub mod contract;
pub mod decimal;
pub mod error;
pub mod hash;
pub mod ledger;
pub mod msg;
pub mod period;
pub mod rule;
pub mod state;
pub mod text;
pub mod types;
