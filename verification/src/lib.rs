//! A deterministic settlement engine for a binary price-prediction market.
//!
//! Participants stake funds on whether an asset's price will rise or fall over
//! a fixed time window (an epoch). At window close the outcome is resolved
//! from an oracle price reading and winners split the losing side's stake,
//! minus a treasury fee.
//!
//! The engine itself is a pure state machine: every operation takes the
//! current [`state::State`], the wall-clock time and, where the round
//! lifecycle needs one, an oracle price reading, and either returns an error
//! with the state untouched or commits the transition and returns a
//! [`msg::Response`] carrying any outbound transfer instructions. Persistence,
//! identity verification and the oracle query itself are the host's business.

pub mod contract;
pub mod error;
pub mod msg;
pub mod oracle;
pub mod state;

pub use crate::error::ContractError;
