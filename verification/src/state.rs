//! The persisted records: platform configuration, loans, payments, the
//! per-loan payment counter and the borrower record the core reads.

use vstd::prelude::*;
use crate::types::{CollateralType, LoanBumps, LoanStatus, PaymentFrequency, PaymentStatus, Pubkey};

verus! {

/// One hundred percent, in basis points.
pub const BASIS_POINTS: u16 = 10_000;

/// Days a payment may stay overdue before a delinquent loan may be defaulted,
/// whatever the configured grace period.
pub const DEFAULT_THRESHOLD_DAYS: u8 = 90;

/// Platform-wide parameters, owned by the administrative authority.
#[derive(Clone, Copy, Debug, PartialEq, Eq)]
pub struct PlatformConfig {
    /// Administrative authority.
    pub authority: Pubkey,
    /// Treasury wallet.
    pub treasury: Pubkey,
    /// Maximum loan-to-value, basis points.
    pub max_ltv: u16,
    /// Smallest principal accepted.
    pub min_loan_amount: u64,
    /// Largest principal accepted.
    pub max_loan_amount: u64,
    /// Origination fee, basis points.
    pub origination_fee: u16,
    /// Servicing fee, basis points.
    pub servicing_fee: u16,
    /// Lowest interest rate, basis points.
    pub min_interest_rate: u16,
    /// Default interest rate, basis points.
    pub default_interest_rate: u16,
    /// Late fee, basis points.
    pub late_fee_rate: u16,
    /// Days a payment may be late before the loan may be marked delinquent.
    pub grace_period_days: u8,
    /// Account that receives fees.
    pub treasury_token_account: Pubkey,
    /// Emergency pause switch.
    pub paused: bool,
}

/// Whether six rates all lie between zero and one hundred percent.
pub open spec fn rates_in_range(
    max_ltv: u16,
    origination_fee: u16,
    servicing_fee: u16,
    min_interest_rate: u16,
    default_interest_rate: u16,
    late_fee_rate: u16,
) -> bool {
    &&& max_ltv <= BASIS_POINTS
    &&& origination_fee <= BASIS_POINTS
    &&& servicing_fee <= BASIS_POINTS
    &&& min_interest_rate <= BASIS_POINTS
    &&& default_interest_rate <= BASIS_POINTS
    &&& late_fee_rate <= BASIS_POINTS
}

impl PlatformConfig {
    /// The configuration invariant: every rate field is at most 10000 basis points.
    pub open spec fn valid(&self) -> bool {
        rates_in_range(
            self.max_ltv,
            self.origination_fee,
            self.servicing_fee,
            self.min_interest_rate,
            self.default_interest_rate,
            self.late_fee_rate,
        )
    }

    /// Tests the configuration invariant.
    pub fn is_valid(&self) -> (ok: bool)
        ensures
            ok == self.valid(),
    {
        self.max_ltv <= BASIS_POINTS && self.origination_fee <= BASIS_POINTS
            && self.servicing_fee <= BASIS_POINTS && self.min_interest_rate <= BASIS_POINTS
            && self.default_interest_rate <= BASIS_POINTS && self.late_fee_rate <= BASIS_POINTS
    }
}

/// A loan: identity, parties, collateral, terms, running balances and
/// compliance references.
#[derive(Clone, Debug, PartialEq, Eq)]
pub struct Loan {
    /// Identifier, unique within the borrower's loans.
    pub loan_id: String,
    /// When the loan was created, Unix seconds.
    pub creation_timestamp: i64,
    pub status: LoanStatus,
    pub borrower: Pubkey,
    pub lender: Pubkey,
    /// Reference to the collateral property.
    pub property_id: String,
    /// Assessed value of the property.
    pub property_value: u64,
    /// Loan-to-value ratio, basis points.
    pub ltv_ratio: u16,
    pub collateral_type: CollateralType,
    /// Amount lent.
    pub principal_amount: u64,
    /// Annual interest rate, basis points.
    pub interest_rate: u16,
    /// Duration in months.
    pub term_months: u8,
    pub payment_frequency: PaymentFrequency,
    /// Origination fee, basis points, fixed at creation.
    pub origination_fee: u16,
    /// When the next payment falls due, Unix seconds; zero until funded.
    pub next_payment_due: i64,
    /// Sum of all payment amounts received.
    pub total_payments_made: u64,
    /// Outstanding principal.
    pub remaining_principal: u64,
    /// Hash of the legal documentation.
    pub legal_doc_hash: [u8; 32],
    /// Reference to the lien filing.
    pub ucc_filing_reference: String,
    /// The borrower's verification flag at creation.
    pub kyc_verified: bool,
    pub bumps: LoanBumps,
}

impl Loan {
    /// The loan invariant: the outstanding principal never exceeds the amount
    /// lent, and it is zero exactly when the loan is completed.
    pub open spec fn valid(&self) -> bool {
        &&& self.remaining_principal <= self.principal_amount
        &&& (self.status == LoanStatus::Completed <==> self.remaining_principal == 0)
    }
}

/// One settled payment. Never changed after it is written.
#[derive(Clone, Copy, Debug, PartialEq, Eq)]
pub struct Payment {
    /// The loan this payment belongs to.
    pub loan: Pubkey,
    /// Position in the loan's ledger, starting at 1.
    pub payment_number: u16,
    /// When the payment was made, Unix seconds.
    pub timestamp: i64,
    /// Total amount paid.
    pub amount: u64,
    /// Part applied to principal.
    pub principal_portion: u64,
    /// Part applied to interest.
    pub interest_portion: u64,
    /// Part taken as servicing fee.
    pub fees_portion: u64,
    pub status: PaymentStatus,
    /// Signature of the carrying transaction.
    pub transaction_signature: [u8; 64],
}

impl Payment {
    /// The payment invariant: the three portions never add up to more than
    /// the amount paid.
    pub open spec fn valid(&self) -> bool {
        self.principal_portion + self.interest_portion + self.fees_portion <= self.amount
    }
}

/// The number of payments recorded so far for one loan.
#[derive(Clone, Copy, Debug, PartialEq, Eq)]
pub struct PaymentCounter {
    pub count: u16,
}

/// The borrower record, maintained outside the lending core.
#[derive(Clone, Copy, Debug, PartialEq, Eq)]
pub struct Borrower {
    pub wallet: Pubkey,
    pub entity_type: u8,
    /// Whether the borrower passed identity verification.
    pub kyc_verified: bool,
    pub kyc_timestamp: i64,
    pub active_loans: u16,
    pub total_borrowed: u64,
    pub risk_score: u16,
}

} // verus!
