//! A proof-of-stake epoch simulator: validator balances evolve under
//! attestation rewards, proposer rewards, penalties, and effective-balance
//! hysteresis, epoch by epoch.

pub mod apply_deltas;
pub mod config;
pub mod deltas;
pub mod error;
pub mod math;
pub mod process_epoch;
pub mod proposers;
mod random;
pub mod report;
pub mod rewards;
pub mod simulation;
pub mod state;
pub mod sums;
pub mod validator;
