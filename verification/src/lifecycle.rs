//! Loan creation and the transitions that move no value: approval,
//! cancellation and closure.

use vstd::prelude::*;
use crate::arith::{basis_points_of, basis_points_share};
use crate::events::{LoanApprovedEvent, LoanCancelledEvent, LoanClosedEvent, LoanCreatedEvent};
use crate::state::{Borrower, Loan, PlatformConfig};
use crate::types::{CollateralType, ErrorCode, LoanBumps, LoanStatus, PaymentFrequency, Pubkey};

verus! {

/// The first guard that refuses a loan request, if any: pause, size, loan to
/// value, borrower verification, then what the collateral supports.
pub open spec fn creation_refusal(
    config: PlatformConfig,
    borrower: Borrower,
    property_value: u64,
    ltv_ratio: u16,
    principal_amount: u64,
) -> Option<ErrorCode> {
    if config.paused {
        Some(ErrorCode::PlatformPaused)
    } else if principal_amount < config.min_loan_amount {
        Some(ErrorCode::LoanTooSmall)
    } else if principal_amount > config.max_loan_amount {
        Some(ErrorCode::LoanTooLarge)
    } else if ltv_ratio > config.max_ltv {
        Some(ErrorCode::LtvExceeded)
    } else if !borrower.kyc_verified {
        Some(ErrorCode::KycRequired)
    } else if basis_points_of(property_value, ltv_ratio) > u64::MAX {
        Some(ErrorCode::ArithmeticOverflow)
    } else if principal_amount > basis_points_of(property_value, ltv_ratio) {
        Some(ErrorCode::LtvExceeded)
    } else {
        None
    }
}

/// Creates a pending loan for `borrower` against a property.
///
/// The platform authority stands in as lender, the whole principal is
/// outstanding, and no payment is due until the loan is funded.
pub fn create_loan(
    config: &PlatformConfig,
    borrower: &Borrower,
    loan_id: String,
    property_id: String,
    property_value: u64,
    ltv_ratio: u16,
    collateral_type: CollateralType,
    principal_amount: u64,
    interest_rate: u16,
    term_months: u8,
    payment_frequency: PaymentFrequency,
    legal_doc_hash: [u8; 32],
    ucc_filing_reference: String,
    bumps: LoanBumps,
    now: i64,
) -> (result: Result<(Loan, LoanCreatedEvent), ErrorCode>)
    ensures
        result is Err <==> creation_refusal(
            *config,
            *borrower,
            property_value,
            ltv_ratio,
            principal_amount,
        ) is Some,
        result is Err ==> Some(result->Err_0) == creation_refusal(
            *config,
            *borrower,
            property_value,
            ltv_ratio,
            principal_amount,
        ),
        result is Ok ==> {
            let (loan, event) = result->Ok_0;
            &&& loan == (Loan {
                loan_id,
                creation_timestamp: now,
                status: LoanStatus::Pending,
                borrower: borrower.wallet,
                lender: config.authority,
                property_id,
                property_value,
                ltv_ratio,
                collateral_type,
                principal_amount,
                interest_rate,
                term_months,
                payment_frequency,
                origination_fee: config.origination_fee,
                next_payment_due: 0,
                total_payments_made: 0,
                remaining_principal: principal_amount,
                legal_doc_hash,
                ucc_filing_reference,
                kyc_verified: true,
                bumps,
            })
            &&& event == (LoanCreatedEvent {
                loan_id,
                borrower: borrower.wallet,
                principal_amount,
                property_id,
                timestamp: now,
            })
            &&& principal_amount > 0 ==> loan.valid()
        },
{
    if config.paused {
        return Err(ErrorCode::PlatformPaused);
    }
    if principal_amount < config.min_loan_amount {
        return Err(ErrorCode::LoanTooSmall);
    }
    if principal_amount > config.max_loan_amount {
        return Err(ErrorCode::LoanTooLarge);
    }
    if ltv_ratio > config.max_ltv {
        return Err(ErrorCode::LtvExceeded);
    }
    if !borrower.kyc_verified {
        return Err(ErrorCode::KycRequired);
    }
    let supported: u128 = basis_points_share(property_value, ltv_ratio);
    if supported > u64::MAX as u128 {
        return Err(ErrorCode::ArithmeticOverflow);
    }
    if principal_amount as u128 > supported {
        return Err(ErrorCode::LtvExceeded);
    }
    let event = LoanCreatedEvent {
        loan_id: loan_id.clone(),
        borrower: borrower.wallet,
        principal_amount,
        property_id: property_id.clone(),
        timestamp: now,
    };
    let loan = Loan {
        loan_id,
        creation_timestamp: now,
        status: LoanStatus::Pending,
        borrower: borrower.wallet,
        lender: config.authority,
        property_id,
        property_value,
        ltv_ratio,
        collateral_type,
        principal_amount,
        interest_rate,
        term_months,
        payment_frequency,
        origination_fee: config.origination_fee,
        next_payment_due: 0,
        total_payments_made: 0,
        remaining_principal: principal_amount,
        legal_doc_hash,
        ucc_filing_reference,
        kyc_verified: borrower.kyc_verified,
        bumps,
    };
    Ok((loan, event))
}

/// The first guard that refuses an approval, if any: pause, caller, status.
pub open spec fn approval_refusal(loan: Loan, config: PlatformConfig, caller: Pubkey) -> Option<
    ErrorCode,
> {
    if config.paused {
        Some(ErrorCode::PlatformPaused)
    } else if caller != config.authority {
        Some(ErrorCode::UnauthorizedAccess)
    } else if loan.status != LoanStatus::Pending {
        Some(ErrorCode::InvalidLoanStatus)
    } else {
        None
    }
}

/// Approves a pending loan. Only the platform authority may do so.
pub fn approve_loan(loan: &mut Loan, config: &PlatformConfig, caller: &Pubkey, now: i64) -> (result:
    Result<LoanApprovedEvent, ErrorCode>)
    ensures
        result is Err <==> approval_refusal(*old(loan), *config, *caller) is Some,
        result is Err ==> Some(result->Err_0) == approval_refusal(*old(loan), *config, *caller)
            && *final(loan) == *old(loan),
        result is Ok ==> {
            &&& *final(loan) == (Loan { status: LoanStatus::Approved, ..*old(loan) })
            &&& result->Ok_0 == (LoanApprovedEvent {
                loan_id: old(loan).loan_id,
                approver: *caller,
                timestamp: now,
            })
            &&& old(loan).valid() ==> final(loan).valid()
            &&& old(loan).status.may_become(final(loan).status)
        },
{
    if config.paused {
        return Err(ErrorCode::PlatformPaused);
    }
    if !caller.same_as(&config.authority) {
        return Err(ErrorCode::UnauthorizedAccess);
    }
    if loan.status != LoanStatus::Pending {
        return Err(ErrorCode::InvalidLoanStatus);
    }
    loan.status = LoanStatus::Approved;
    Ok(LoanApprovedEvent { loan_id: loan.loan_id.clone(), approver: *caller, timestamp: now })
}

/// The first guard that refuses a cancellation, if any: caller, then status.
/// A pause does not block cancellation.
pub open spec fn cancellation_refusal(loan: Loan, config: PlatformConfig, caller: Pubkey) -> Option<
    ErrorCode,
> {
    if caller != loan.borrower && caller != config.authority {
        Some(ErrorCode::UnauthorizedAccess)
    } else if loan.status != LoanStatus::Pending && loan.status != LoanStatus::Approved {
        Some(ErrorCode::InvalidLoanStatus)
    } else {
        None
    }
}

/// Cancels a loan that has not been funded. The borrower or the platform
/// authority may do so, paused or not.
pub fn cancel_loan(loan: &mut Loan, config: &PlatformConfig, caller: &Pubkey, now: i64) -> (result:
    Result<LoanCancelledEvent, ErrorCode>)
    ensures
        result is Err <==> cancellation_refusal(*old(loan), *config, *caller) is Some,
        result is Err ==> Some(result->Err_0) == cancellation_refusal(
            *old(loan),
            *config,
            *caller,
        ) && *final(loan) == *old(loan),
        result is Ok ==> {
            &&& *final(loan) == (Loan { status: LoanStatus::Cancelled, ..*old(loan) })
            &&& result->Ok_0 == (LoanCancelledEvent {
                loan_id: old(loan).loan_id,
                canceller: *caller,
                timestamp: now,
            })
            &&& old(loan).valid() ==> final(loan).valid()
            &&& old(loan).status.may_become(final(loan).status)
        },
{
    if !caller.same_as(&loan.borrower) && !caller.same_as(&config.authority) {
        return Err(ErrorCode::UnauthorizedAccess);
    }
    if loan.status != LoanStatus::Pending && loan.status != LoanStatus::Approved {
        return Err(ErrorCode::InvalidLoanStatus);
    }
    loan.status = LoanStatus::Cancelled;
    Ok(LoanCancelledEvent { loan_id: loan.loan_id.clone(), canceller: *caller, timestamp: now })
}

/// The first guard that refuses a closure, if any: caller, then status.
/// A pause does not block closure.
pub open spec fn closure_refusal(loan: Loan, caller: Pubkey) -> Option<ErrorCode> {
    if caller != loan.borrower {
        Some(ErrorCode::UnauthorizedAccess)
    } else if loan.status != LoanStatus::Completed {
        Some(ErrorCode::InvalidLoanStatus)
    } else {
        None
    }
}

/// Confirms that a completed loan may be closed by its borrower and its
/// record removed. The loan itself is not changed.
pub fn close_loan(loan: &Loan, caller: &Pubkey, now: i64) -> (result: Result<
    LoanClosedEvent,
    ErrorCode,
>)
    ensures
        result is Err <==> closure_refusal(*loan, *caller) is Some,
        result is Err ==> Some(result->Err_0) == closure_refusal(*loan, *caller),
        result is Ok ==> result->Ok_0 == (LoanClosedEvent {
            loan_id: loan.loan_id,
            borrower: loan.borrower,
            timestamp: now,
        }),
{
    if !caller.same_as(&loan.borrower) {
        return Err(ErrorCode::UnauthorizedAccess);
    }
    if loan.status != LoanStatus::Completed {
        return Err(ErrorCode::InvalidLoanStatus);
    }
    Ok(LoanClosedEvent { loan_id: loan.loan_id.clone(), borrower: loan.borrower, timestamp: now })
}

} // verus!
