//! The delinquency and default monitor: time thresholds that move a loan out
//! of good standing. Nothing here polls a clock; the caller supplies `now`.

use vstd::prelude::*;
use crate::arith::{days_overdue, days_overdue_of};
use crate::events::{LoanDefaultEvent, LoanDelinquentEvent};
use crate::state::{Loan, PlatformConfig, DEFAULT_THRESHOLD_DAYS};
use crate::types::{ErrorCode, LoanStatus, Pubkey};

verus! {

/// Whether at `now` a payment due at `due` is overdue by more than `days` days.
pub open spec fn overdue_beyond(now: i64, due: i64, days: int) -> bool {
    now > due + days * 86_400
}

/// Tests whether at `now` a payment due at `due` is overdue by more than
/// `days` days.
pub fn is_overdue_beyond(now: i64, due: i64, days: u8) -> (overdue: bool)
    ensures
        overdue == overdue_beyond(now, due, days as int),
{
    let threshold: i128 = due as i128 + (days as i128) * 86_400;
    now as i128 > threshold
}

/// The first guard that refuses marking a loan delinquent, if any: pause,
/// caller, status, then the grace period.
pub open spec fn delinquency_refusal(
    loan: Loan,
    config: PlatformConfig,
    caller: Pubkey,
    now: i64,
) -> Option<ErrorCode> {
    if config.paused {
        Some(ErrorCode::PlatformPaused)
    } else if caller != config.authority {
        Some(ErrorCode::UnauthorizedAccess)
    } else if loan.status != LoanStatus::Active {
        Some(ErrorCode::InvalidLoanStatus)
    } else if !overdue_beyond(now, loan.next_payment_due, config.grace_period_days as int) {
        Some(ErrorCode::PaymentNotOverdue)
    } else {
        None
    }
}

/// Marks an active loan delinquent once its payment is overdue by more than
/// the configured grace period. Only the platform authority may do so.
pub fn mark_loan_delinquent(
    loan: &mut Loan,
    config: &PlatformConfig,
    caller: &Pubkey,
    now: i64,
) -> (result: Result<LoanDelinquentEvent, ErrorCode>)
    ensures
        result is Err <==> delinquency_refusal(*old(loan), *config, *caller, now) is Some,
        result is Err ==> Some(result->Err_0) == delinquency_refusal(
            *old(loan),
            *config,
            *caller,
            now,
        ) && *final(loan) == *old(loan),
        result is Ok ==> {
            &&& *final(loan) == (Loan { status: LoanStatus::Delinquent, ..*old(loan) })
            &&& result->Ok_0 == (LoanDelinquentEvent {
                loan_id: old(loan).loan_id,
                days_overdue: days_overdue_of(now - old(loan).next_payment_due) as u16,
                timestamp: now,
            })
            &&& old(loan).valid() ==> final(loan).valid()
            &&& old(loan).status.may_become(final(loan).status)
        },
{
    if config.paused {
        return Err(ErrorCode::PlatformPaused);
    }
    if !caller.same_as(&config.authority) {
        return Err(ErrorCode::UnauthorizedAccess);
    }
    if loan.status != LoanStatus::Active {
        return Err(ErrorCode::InvalidLoanStatus);
    }
    if !is_overdue_beyond(now, loan.next_payment_due, config.grace_period_days) {
        return Err(ErrorCode::PaymentNotOverdue);
    }
    loan.status = LoanStatus::Delinquent;
    Ok(
        LoanDelinquentEvent {
            loan_id: loan.loan_id.clone(),
            days_overdue: days_overdue(now, loan.next_payment_due),
            timestamp: now,
        },
    )
}

/// The first guard that refuses marking a loan defaulted, if any: pause,
/// caller, status, then the fixed threshold of ninety days.
pub open spec fn default_refusal(
    loan: Loan,
    config: PlatformConfig,
    caller: Pubkey,
    now: i64,
) -> Option<ErrorCode> {
    if config.paused {
        Some(ErrorCode::PlatformPaused)
    } else if caller != config.authority {
        Some(ErrorCode::UnauthorizedAccess)
    } else if loan.status != LoanStatus::Delinquent {
        Some(ErrorCode::InvalidLoanStatus)
    } else if !overdue_beyond(now, loan.next_payment_due, DEFAULT_THRESHOLD_DAYS as int) {
        Some(ErrorCode::NotInDefaultYet)
    } else {
        None
    }
}

/// Marks a delinquent loan defaulted once its payment is overdue by more
/// than ninety days, whatever the grace period. Only the platform authority
/// may do so.
pub fn mark_loan_default(
    loan: &mut Loan,
    config: &PlatformConfig,
    caller: &Pubkey,
    now: i64,
) -> (result: Result<LoanDefaultEvent, ErrorCode>)
    ensures
        result is Err <==> default_refusal(*old(loan), *config, *caller, now) is Some,
        result is Err ==> Some(result->Err_0) == default_refusal(
            *old(loan),
            *config,
            *caller,
            now,
        ) && *final(loan) == *old(loan),
        result is Ok ==> {
            &&& *final(loan) == (Loan { status: LoanStatus::Default, ..*old(loan) })
            &&& result->Ok_0 == (LoanDefaultEvent {
                loan_id: old(loan).loan_id,
                days_overdue: days_overdue_of(now - old(loan).next_payment_due) as u16,
                remaining_principal: old(loan).remaining_principal,
                timestamp: now,
            })
            &&& old(loan).valid() ==> final(loan).valid()
            &&& old(loan).status.may_become(final(loan).status)
        },
{
    if config.paused {
        return Err(ErrorCode::PlatformPaused);
    }
    if !caller.same_as(&config.authority) {
        return Err(ErrorCode::UnauthorizedAccess);
    }
    if loan.status != LoanStatus::Delinquent {
        return Err(ErrorCode::InvalidLoanStatus);
    }
    if !is_overdue_beyond(now, loan.next_payment_due, DEFAULT_THRESHOLD_DAYS) {
        return Err(ErrorCode::NotInDefaultYet);
    }
    loan.status = LoanStatus::Default;
    Ok(
        LoanDefaultEvent {
            loan_id: loan.loan_id.clone(),
            days_overdue: days_overdue(now, loan.next_payment_due),
            remaining_principal: loan.remaining_principal,
            timestamp: now,
        },
    )
}

} // verus!
