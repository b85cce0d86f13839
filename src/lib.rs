//! Split-payment allocation and orchestration.
//!
//! An order amount is covered by zero or more stored-value instruments (gift
//! cards) and at most one primary instrument. The allocation engine turns the
//! declared instruments and a snapshot of gift-card balances into an ordered
//! list of legs; the orchestrator drives those legs one after another and keeps
//! the payment intent's status in step.
pub mod instrument;
pub mod error;
pub mod balance;
pub mod allocation;
pub mod intent;
pub mod orchestrator;
pub mod guarantees;
