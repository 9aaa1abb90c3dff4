//! Confidential settlement for binary prediction markets: the payout engine,
//! the fixed receipt layouts, deterministic record addresses, and the
//! per-market state machine that pairs computation requests with their
//! callbacks.
pub mod errors;
pub mod engine;
pub mod randomness;
pub mod codec;
pub mod state;
pub mod instructions;
pub mod address;
