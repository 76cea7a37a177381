//! Escrow-style delivery agreement between a sender (the owner), a courier
//! and an automated settlement agent, mediated through a persistent status
//! field, time-bounded cancellation windows and a two-phase asset-transfer
//! protocol.
//!
//! The library is the verified core: the status state machine, the
//! cancellation policy, the payment coordination decisions and the
//! signature-check plumbing, all over plain values. The host glue (storage,
//! token-ledger queries, message encoding) lives outside and hands the core
//! plain values.

pub mod contract;
pub mod error;
pub mod models;
pub mod methods;
pub mod msg;
pub mod queries;
pub mod state;
pub mod utils;
