//! A graduated emergency stop ("circuit breaker") for a supply-chain ledger.
//!
//! The library holds the whole state of the breaker as plain values and
//! decides every operation: who may pause, at which level, for how long,
//! how multi-guardian proposals are approved and executed, and when a
//! pause expires.  The host that stores the state, authenticates callers,
//! reads the ledger clock and publishes events lives outside the library.
mod types;
mod rules;
pub mod model;
mod contract;
pub mod laws;

pub use types::{
    initial_state, Address, CircuitBreakerEvent, CircuitBreakerState, Error, PauseApproval, PauseLevel,
    PauseReason, PauseRecord,
};
pub use rules::{
    is_expired, validate_description, validate_duration, MAX_DESCRIPTION_LEN, MAX_GUARDIANS,
    MAX_PAUSE_DURATION_SECS,
};
pub use contract::{CircuitBreakerContract, StoredBreaker};
