//! Identities, closed enumerations and the error kinds shared by every operation.

use vstd::prelude::*;

verus! {

/// A 32-byte account identity.
#[derive(Clone, Copy, Debug, PartialEq, Eq, Hash)]
pub struct Pubkey {
    pub bytes: [u8; 32],
}

impl Pubkey {
    /// Wraps 32 raw bytes as an identity.
    pub fn new(bytes: [u8; 32]) -> (key: Pubkey)
        ensures
            key.bytes == bytes,
    {
        Pubkey { bytes }
    }

    /// Whether two identities are the same, byte for byte.
    pub fn same_as(&self, other: &Pubkey) -> (same: bool)
        ensures
            same == (*self == *other),
    {
        let mut i: usize = 0;
        while i < 32
            invariant
                i <= 32,
                forall|j: int| 0 <= j < i ==> self.bytes@[j] == other.bytes@[j],
            decreases 32 - i,
        {
            if self.bytes[i] != other.bytes[i] {
                return false;
            }
            i += 1;
        }
        assert(self.bytes == other.bytes) by {
            assert(self.bytes@ =~= other.bytes@);
        }
        true
    }
}

/// Where a loan stands in its lifecycle.
#[derive(Clone, Copy, Debug, PartialEq, Eq, Structural)]
pub enum LoanStatus {
    /// Application submitted, not yet approved.
    Pending,
    /// Approved but not funded.
    Approved,
    /// Funded and in good standing.
    Active,
    /// One or more payments overdue.
    Delinquent,
    /// In default.
    Default,
    /// Fully repaid.
    Completed,
    /// Cancelled before funding.
    Cancelled,
}

impl LoanStatus {
    /// Whether one successful operation may take a loan from `self` to `next`.
    ///
    /// A pending loan is approved or cancelled; an approved one is funded or
    /// cancelled; an active one stays active under a payment, is completed
    /// by its last payment, or turns delinquent; a delinquent one is brought
    /// back to active or completed by a payment, or defaults. Default,
    /// completed and cancelled loans change no more.
    pub open spec fn may_become(self, next: LoanStatus) -> bool {
        match self {
            LoanStatus::Pending => next == LoanStatus::Approved || next == LoanStatus::Cancelled,
            LoanStatus::Approved => next == LoanStatus::Active || next == LoanStatus::Cancelled,
            LoanStatus::Active => next == LoanStatus::Active || next == LoanStatus::Delinquent
                || next == LoanStatus::Completed,
            LoanStatus::Delinquent => next == LoanStatus::Active || next == LoanStatus::Default
                || next == LoanStatus::Completed,
            LoanStatus::Default => false,
            LoanStatus::Completed => false,
            LoanStatus::Cancelled => false,
        }
    }
}

/// What secures a loan.
#[derive(Clone, Copy, Debug, PartialEq, Eq, Structural)]
pub enum CollateralType {
    BusinessAssets,
    Equipment,
    Inventory,
    AccountsReceivable,
    Mixed,
}

/// How often a payment falls due.
#[derive(Clone, Copy, Debug, PartialEq, Eq, Structural)]
pub enum PaymentFrequency {
    Monthly,
    Quarterly,
    Semiannual,
    Annual,
    /// A single payment at the end of the term.
    BulletPayment,
}

/// The state of one payment record.
#[derive(Clone, Copy, Debug, PartialEq, Eq, Structural)]
pub enum PaymentStatus {
    Scheduled,
    Completed,
    Partial,
    Late,
    Missed,
}

/// Address-derivation seeds stored with a loan.
#[derive(Clone, Copy, Debug, PartialEq, Eq, Structural)]
pub struct LoanBumps {
    pub loan_bump: u8,
    pub vault_bump: u8,
}

/// Why an operation was refused. A refused operation changes nothing.
#[derive(Clone, Copy, Debug, PartialEq, Eq, Structural)]
pub enum ErrorCode {
    /// The platform is paused.
    PlatformPaused,
    /// The requested amount exceeds what the collateral supports.
    LtvExceeded,
    /// The requested amount is below the platform minimum.
    LoanTooSmall,
    /// The requested amount is above the platform maximum.
    LoanTooLarge,
    /// The borrower has not passed identity verification.
    KycRequired,
    /// The property has not been verified.
    PropertyVerificationRequired,
    /// The lender cannot cover the principal.
    InsufficientFunds,
    /// The loan is not in a state from which the operation may run.
    InvalidLoanStatus,
    /// The payment amount is not positive.
    PaymentTooSmall,
    /// The caller is not allowed to perform the operation.
    UnauthorizedAccess,
    /// The payment is not yet overdue beyond the grace period.
    PaymentNotOverdue,
    /// The payment is not yet overdue beyond the default threshold.
    NotInDefaultYet,
    /// A fee, balance, counter or date left the range of its type.
    ArithmeticOverflow,
}

} // verus!
