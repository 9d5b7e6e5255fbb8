//! A single-auction escrow engine.
//!
//! The crate is the core state machine of an auction: it decides whether a
//! bid is valid, splits each bid into commission and principal, tracks the
//! current leader and a per-bidder ledger of escrowed funds, and decides
//! which transfer (if any) each operation emits. The hosting dispatcher is
//! expected to persist the three records ([`state::Config`],
//! [`state::State`], [`state::Ledger`]), deliver one message at a time, and
//! carry out the transfers that the operations return.

pub mod contract;
pub mod error;
pub mod laws;
pub mod msg;
pub mod state;
