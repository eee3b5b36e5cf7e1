//! Core logic of a chat bot that bridges Discord and Twitch: wallet and
//! payout ledgers, an autodelete timer store with its scheduling rules, a
//! logging-channel registry with a pause mechanism, and the pure decision
//! logic of the various chat handlers.
//!
//! Everything that talks to the outside world (the chat platforms, the
//! document database, the clock) lives outside this crate; these modules hold
//! the state machines and the arithmetic, stated and proved over plain
//! values.

pub mod agent;
pub mod config;
pub mod discord;
pub mod handlers;
pub mod rng;
pub mod text;
