//! Audit events: one per successful operation, returned to the caller for
//! delivery to the event sink.

use vstd::prelude::*;
use crate::types::Pubkey;

verus! {

/// A loan was created.
#[derive(Clone, Debug, PartialEq, Eq)]
pub struct LoanCreatedEvent {
    pub loan_id: String,
    pub borrower: Pubkey,
    pub principal_amount: u64,
    pub property_id: String,
    pub timestamp: i64,
}

/// A loan was approved.
#[derive(Clone, Debug, PartialEq, Eq)]
pub struct LoanApprovedEvent {
    pub loan_id: String,
    pub approver: Pubkey,
    pub timestamp: i64,
}

/// A loan was funded.
#[derive(Clone, Debug, PartialEq, Eq)]
pub struct LoanFundedEvent {
    pub loan_id: String,
    pub borrower: Pubkey,
    pub lender: Pubkey,
    /// The principal.
    pub amount: u64,
    /// The origination fee withheld.
    pub fees: u64,
    pub timestamp: i64,
}

/// A payment was settled.
#[derive(Clone, Debug, PartialEq, Eq)]
pub struct PaymentMadeEvent {
    pub loan_id: String,
    pub payment_number: u16,
    pub amount: u64,
    pub principal: u64,
    pub interest: u64,
    pub fees: u64,
    pub timestamp: i64,
}

/// A loan became delinquent.
#[derive(Clone, Debug, PartialEq, Eq)]
pub struct LoanDelinquentEvent {
    pub loan_id: String,
    pub days_overdue: u16,
    pub timestamp: i64,
}

/// A loan went into default.
#[derive(Clone, Debug, PartialEq, Eq)]
pub struct LoanDefaultEvent {
    pub loan_id: String,
    pub days_overdue: u16,
    pub remaining_principal: u64,
    pub timestamp: i64,
}

/// A completed loan was closed.
#[derive(Clone, Debug, PartialEq, Eq)]
pub struct LoanClosedEvent {
    pub loan_id: String,
    pub borrower: Pubkey,
    pub timestamp: i64,
}

/// A loan was cancelled before funding.
#[derive(Clone, Debug, PartialEq, Eq)]
pub struct LoanCancelledEvent {
    pub loan_id: String,
    pub canceller: Pubkey,
    pub timestamp: i64,
}

} // verus!
