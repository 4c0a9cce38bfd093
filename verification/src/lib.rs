//! Accounting core of a token-staking ledger.
//!
//! The crate tracks a registry (`StateAccount`), its pools
//! (`FarmPoolAccount`) and per-user positions (`FarmPoolUserAccount`), and
//! verifies the five mutating operations (stake, unstake, harvest, fund,
//! administrative withdraw) together with the reward-accrual arithmetic.
//! The core never moves assets itself: each mutating operation returns a
//! `TransferInstruction` describing the single transfer the surrounding
//! runtime must execute, and every arithmetic step is checked so that no
//! balance can silently wrap.

pub mod accounts;
pub mod errors;
pub mod laws;
pub mod ops;
pub mod reward;
