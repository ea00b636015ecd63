//! Collateralized lending: the loan lifecycle state machine, the settlement of
//! repayments into interest, principal and fees, and the time-driven monitor
//! that moves a loan into delinquency and default.
//!
//! Every operation takes the records it reads and writes as plain values,
//! validates its guards, and either commits the whole update or leaves every
//! record untouched and reports why. Value transfers and audit events are
//! returned to the caller to carry out.

pub mod types;
pub mod state;
pub mod events;
pub mod arith;
pub mod admin;
pub mod lifecycle;
pub mod funding;
pub mod payment;
pub mod monitor;
pub mod invariants;
pub mod property_registry;
