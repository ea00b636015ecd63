//! Funding: the origination fee, the two transfers it asks for, and the
//! first due date.
//!
//! Funding is atomic with its transfers. The caller funds a working copy of
//! the loan, carries out both transfers, and stores the copy only when both
//! have succeeded; if either fails, it discards the copy.

use vstd::prelude::*;
use crate::arith::{basis_points_of, basis_points_share, period_length, period_seconds};
use crate::events::LoanFundedEvent;
use crate::state::{Loan, PlatformConfig};
use crate::types::{ErrorCode, LoanStatus, Pubkey};

verus! {

/// What a funded loan hands back: the two transfers to carry out and the
/// audit event.
#[derive(Clone, Debug, PartialEq, Eq)]
pub struct FundingReceipt {
    /// To transfer from the lender to the treasury: the origination fee.
    pub treasury_amount: u64,
    /// To transfer from the lender to the borrower: the principal less the fee.
    pub borrower_amount: u64,
    pub event: LoanFundedEvent,
}

/// The origination fee of a loan: its fee rate applied to its principal.
pub open spec fn origination_fee_of(loan: Loan) -> int {
    basis_points_of(loan.principal_amount, loan.origination_fee)
}

/// The first guard that refuses a funding, if any: pause, status, the ranges
/// of fee and due date, then the lender's funds.
pub open spec fn funding_refusal(
    loan: Loan,
    config: PlatformConfig,
    lender_balance: u64,
    now: i64,
) -> Option<ErrorCode> {
    if config.paused {
        Some(ErrorCode::PlatformPaused)
    } else if loan.status != LoanStatus::Approved {
        Some(ErrorCode::InvalidLoanStatus)
    } else if origination_fee_of(loan) > loan.principal_amount || now + period_seconds(
        loan.payment_frequency,
        loan.term_months,
    ) > i64::MAX {
        Some(ErrorCode::ArithmeticOverflow)
    } else if lender_balance < loan.principal_amount {
        Some(ErrorCode::InsufficientFunds)
    } else {
        None
    }
}

/// Funds an approved loan from `lender`, who holds `lender_balance`.
///
/// A refused funding changes nothing. An accepted one activates the loan,
/// sets the first due date one period after `now`, and returns the two
/// transfers the caller must carry out: together they make up the principal
/// exactly.
pub fn fund_loan(
    loan: &mut Loan,
    config: &PlatformConfig,
    lender: &Pubkey,
    lender_balance: u64,
    now: i64,
) -> (result: Result<FundingReceipt, ErrorCode>)
    ensures
        result is Err <==> funding_refusal(*old(loan), *config, lender_balance, now) is Some,
        result is Err ==> Some(result->Err_0) == funding_refusal(
            *old(loan),
            *config,
            lender_balance,
            now,
        ) && *final(loan) == *old(loan),
        result is Ok ==> {
            let receipt = result->Ok_0;
            &&& *final(loan) == (Loan {
                status: LoanStatus::Active,
                next_payment_due: (now + period_seconds(
                    old(loan).payment_frequency,
                    old(loan).term_months,
                )) as i64,
                ..*old(loan)
            })
            &&& receipt.treasury_amount == origination_fee_of(*old(loan))
            &&& receipt.borrower_amount == old(loan).principal_amount - origination_fee_of(
                *old(loan),
            )
            &&& receipt.treasury_amount + receipt.borrower_amount == old(loan).principal_amount
            &&& receipt.event == (LoanFundedEvent {
                loan_id: old(loan).loan_id,
                borrower: old(loan).borrower,
                lender: *lender,
                amount: old(loan).principal_amount,
                fees: receipt.treasury_amount,
                timestamp: now,
            })
            &&& old(loan).valid() ==> final(loan).valid()
            &&& old(loan).status.may_become(final(loan).status)
        },
{
    if config.paused {
        return Err(ErrorCode::PlatformPaused);
    }
    if loan.status != LoanStatus::Approved {
        return Err(ErrorCode::InvalidLoanStatus);
    }
    let wide_fee: u128 = basis_points_share(loan.principal_amount, loan.origination_fee);
    let period: i64 = period_length(loan.payment_frequency, loan.term_months);
    if wide_fee > loan.principal_amount as u128 || now > i64::MAX - period {
        return Err(ErrorCode::ArithmeticOverflow);
    }
    if lender_balance < loan.principal_amount {
        return Err(ErrorCode::InsufficientFunds);
    }
    let fee: u64 = wide_fee as u64;
    loan.status = LoanStatus::Active;
    loan.next_payment_due = now + period;
    let event = LoanFundedEvent {
        loan_id: loan.loan_id.clone(),
        borrower: loan.borrower,
        lender: *lender,
        amount: loan.principal_amount,
        fees: fee,
        timestamp: now,
    };
    Ok(
        FundingReceipt {
            treasury_amount: fee,
            borrower_amount: loan.principal_amount - fee,
            event,
        },
    )
}

} // verus!
