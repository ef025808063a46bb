//! Telegram voice and video calls: the verified core.
//!
//! The native media engine (ntgcalls) and the Telegram client run outside
//! this crate; everything they hand over arrives here as plain values, and
//! every decision taken on those values is made here, with its contract.

pub mod enums;
pub mod text;
pub mod raw;
pub mod errors;
pub mod structures;
pub mod call;
pub mod calls;
pub mod media;
pub mod p2p;
pub mod signaling;
pub mod e2e;
pub mod engine;
