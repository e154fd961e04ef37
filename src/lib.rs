//! Escrow and settlement engine for over-the-counter orders: order lifecycle,
//! fees with a staking discount, filler rewards, commit-reveal concealment,
//! multisig approvals and a fee treasury.
pub mod types;
pub mod fees;
pub mod commit;
pub mod engine;
pub mod laws;
