//! Payment settlement: interest accrual, the servicing fee and its
//! precedence over interest, principal amortization, and the ledger entry
//! each payment leaves behind.
//!
//! Interest is computed in whole numbers, exactly, and rounded up once at
//! the end.
//!
//! A payment is atomic with its transfers. The caller settles against working
//! copies of the loan and its counter, carries out both transfers, and stores
//! the copies and the ledger entry only when both have succeeded.

use vstd::prelude::*;
use vstd::arithmetic::div_mod::lemma_hoist_over_denominator;
use crate::arith::{
    basis_points_of, basis_points_product, basis_points_share, period_length, period_seconds,
};
use crate::events::PaymentMadeEvent;
use crate::state::{Loan, Payment, PaymentCounter, PlatformConfig};
use crate::types::{ErrorCode, LoanStatus, PaymentFrequency, PaymentStatus, Pubkey};

verus! {

/// Basis points in one, times the seconds of a year of 365 days: what a
/// product of principal, rate in basis points and seconds is divided by.
pub const INTEREST_DIVISOR: u64 = 315_360_000_000;

/// Seconds over which a payment made at `now` is charged interest: since
/// creation for the first payment, afterwards since the due date plus a fixed
/// thirty days, whatever the schedule.
pub open spec fn elapsed_seconds(loan: Loan, now: i64) -> int {
    if loan.total_payments_made == 0 {
        now - loan.creation_timestamp
    } else {
        now - loan.next_payment_due + 30 * 86_400
    }
}

/// Simple interest on `principal` at `rate_bps` per year of 365 days over
/// `elapsed` seconds, rounded up to a whole unit; nothing accrues over a span
/// that is not positive.
pub open spec fn interest_accrued(principal: u64, rate_bps: u16, elapsed: int) -> int {
    if elapsed <= 0 {
        0
    } else {
        (principal * rate_bps * elapsed + INTEREST_DIVISOR - 1) / (INTEREST_DIVISOR as int)
    }
}

/// The interest charged on a payment of `amount` at `now`: what accrued,
/// but never more than was paid in.
pub open spec fn interest_due(loan: Loan, amount: u64, now: i64) -> int {
    let accrued = interest_accrued(
        loan.remaining_principal,
        loan.interest_rate,
        elapsed_seconds(loan, now),
    );
    if accrued < amount {
        accrued
    } else {
        amount as int
    }
}

/// Computes the accrued interest, capped at `cap`.
///
/// `elapsed` is the difference of two 64-bit timestamps, thirty days more
/// or less, so it lies within two to the power of 65 either way.
pub fn accrued_interest(principal: u64, rate_bps: u16, elapsed: i128, cap: u64) -> (interest: u64)
    requires
        -0x2_0000_0000_0000_0000 <= elapsed <= 0x2_0000_0000_0000_0000,
    ensures
        interest == if interest_accrued(principal, rate_bps, elapsed as int) < cap {
            interest_accrued(principal, rate_bps, elapsed as int)
        } else {
            cap as int
        },
{
    if elapsed <= 0 {
        return 0;
    }
    let span: u128 = elapsed as u128;
    let divisor: u128 = INTEREST_DIVISOR as u128;
    let yearly: u128 = basis_points_product(principal, rate_bps);
    let whole: u128 = yearly / divisor;
    let rest: u128 = yearly % divisor;
    assert(whole * span <= 0x4000_0000_0000 * 0x2_0000_0000_0000_0000) by (nonlinear_arith)
        requires
            whole <= 0x4000_0000_0000,
            span <= 0x2_0000_0000_0000_0000,
    ;
    assert(rest * span <= 315_360_000_000 * 0x2_0000_0000_0000_0000) by (nonlinear_arith)
        requires
            rest <= 315_360_000_000,
            span <= 0x2_0000_0000_0000_0000,
    ;
    let from_whole: u128 = whole * span;
    let from_rest: u128 = rest * span;
    let quotient: u128 = from_rest / divisor;
    let round_up: u128 = if from_rest % divisor != 0 { 1 } else { 0 };
    let total: u128 = from_whole + quotient + round_up;
    proof {
        let d = INTEREST_DIVISOR as int;
        assert(yearly * span == (whole * span) * d + rest * span) by (nonlinear_arith)
            requires
                yearly == whole * d + rest,
        ;
        lemma_hoist_over_denominator(from_rest + d - 1, from_whole as int, d as nat);
        assert((from_rest + d - 1) / d == quotient + round_up);
        assert(principal * rate_bps * elapsed == yearly * span);
    }
    if total < cap as u128 {
        total as u64
    } else {
        cap
    }
}

/// How one payment is divided.
#[derive(Clone, Copy, Debug, PartialEq, Eq, Structural)]
pub struct Settlement {
    /// Interest charged, never more than the amount paid.
    pub interest_due: u64,
    /// Servicing fee, sent to the treasury.
    pub servicing_fee: u64,
    /// Interest left after the fee was taken out of it.
    pub interest_portion: u64,
    /// What reduces the outstanding principal.
    pub principal_portion: u64,
    /// What is sent to the lender: the amount less the servicing fee.
    pub lender_amount: u64,
}

/// Divides `amount` given the interest charged and the servicing fee. The
/// fee comes out of the interest first. Only where the fee is at least the
/// interest does the principal portion bear the rest of it, down to zero.
pub open spec fn split_payment(amount: u64, interest: u64, fee: u64) -> Settlement
    recommends
        interest <= amount,
        fee <= amount,
{
    let principal_payment = amount - interest;
    let deficit = fee - interest;
    Settlement {
        interest_due: interest,
        servicing_fee: fee,
        interest_portion: if interest > fee {
            (interest - fee) as u64
        } else {
            0
        },
        principal_portion: if interest > fee {
            principal_payment as u64
        } else if principal_payment > deficit {
            (principal_payment - deficit) as u64
        } else {
            0
        },
        lender_amount: (amount - fee) as u64,
    }
}

/// The smaller of an interest figure and the amount paid.
pub open spec fn capped(interest: u64, amount: u64) -> u64 {
    if interest < amount {
        interest
    } else {
        amount
    }
}

/// Divides a payment of `amount` on which `interest` accrued, at a servicing
/// fee of `servicing_fee_bps` basis points. Interest beyond the amount is not
/// charged. Fails exactly when the fee would exceed the amount.
pub fn settle(amount: u64, interest: u64, servicing_fee_bps: u16) -> (result: Result<
    Settlement,
    ErrorCode,
>)
    ensures
        result is Err <==> basis_points_of(amount, servicing_fee_bps) > amount,
        result is Err ==> result == Err::<Settlement, ErrorCode>(ErrorCode::ArithmeticOverflow),
        result is Ok ==> result->Ok_0 == split_payment(
            amount,
            capped(interest, amount),
            basis_points_of(amount, servicing_fee_bps) as u64,
        ),
        result is Ok ==> result->Ok_0.principal_portion + result->Ok_0.interest_portion
            + result->Ok_0.servicing_fee <= amount,
{
    let wide_fee: u128 = basis_points_share(amount, servicing_fee_bps);
    if wide_fee > amount as u128 {
        return Err(ErrorCode::ArithmeticOverflow);
    }
    let fee: u64 = wide_fee as u64;
    let interest_due: u64 = if interest < amount { interest } else { amount };
    let principal_payment: u64 = amount - interest_due;
    let interest_portion: u64 = if interest_due > fee { interest_due - fee } else { 0 };
    let principal_portion: u64 = if interest_due > fee {
        principal_payment
    } else {
        let deficit: u64 = fee - interest_due;
        if principal_payment > deficit { principal_payment - deficit } else { 0 }
    };
    Ok(
        Settlement {
            interest_due,
            servicing_fee: fee,
            interest_portion,
            principal_portion,
            lender_amount: amount - fee,
        },
    )
}

/// How a payment of `amount` made on `loan` at `now` is divided: the
/// interest is what accrued on the outstanding principal, capped at the
/// amount; the fee is the platform's servicing rate applied to the amount.
pub open spec fn payment_split(loan: Loan, config: PlatformConfig, amount: u64, now: i64) -> Settlement {
    split_payment(
        amount,
        interest_due(loan, amount, now) as u64,
        basis_points_of(amount, config.servicing_fee) as u64,
    )
}

/// Seconds by which a payment moves the due date on: one period, except
/// that a bullet loan keeps its single due date.
pub open spec fn schedule_advance(frequency: PaymentFrequency) -> int {
    match frequency {
        PaymentFrequency::BulletPayment => 0,
        _ => period_seconds(frequency, 0),
    }
}

/// The first guard that refuses a payment, if any: pause, caller, status,
/// amount, then the ranges of fee, running total, due date and counter.
pub open spec fn payment_refusal(
    loan: Loan,
    counter: PaymentCounter,
    config: PlatformConfig,
    caller: Pubkey,
    amount: u64,
) -> Option<ErrorCode> {
    if config.paused {
        Some(ErrorCode::PlatformPaused)
    } else if caller != loan.borrower {
        Some(ErrorCode::UnauthorizedAccess)
    } else if loan.status != LoanStatus::Active && loan.status != LoanStatus::Delinquent {
        Some(ErrorCode::InvalidLoanStatus)
    } else if amount == 0 {
        Some(ErrorCode::PaymentTooSmall)
    } else if basis_points_of(amount, config.servicing_fee) > amount
        || loan.total_payments_made + amount > u64::MAX
        || loan.next_payment_due + schedule_advance(loan.payment_frequency) > i64::MAX
        || counter.count == u16::MAX {
        Some(ErrorCode::ArithmeticOverflow)
    } else {
        None
    }
}

/// The loan after a payment of `amount` divided as `split`: the principal
/// portion comes off the outstanding principal, down to zero; the amount is
/// added to the running total; the due date moves on; the loan is completed
/// when nothing is outstanding and in good standing otherwise.
pub open spec fn loan_after_payment(loan: Loan, split: Settlement, amount: u64) -> Loan {
    let remaining: u64 = if loan.remaining_principal > split.principal_portion {
        (loan.remaining_principal - split.principal_portion) as u64
    } else {
        0
    };
    Loan {
        remaining_principal: remaining,
        total_payments_made: (loan.total_payments_made + amount) as u64,
        next_payment_due: (loan.next_payment_due + schedule_advance(loan.payment_frequency)) as i64,
        status: if remaining == 0 {
            LoanStatus::Completed
        } else {
            LoanStatus::Active
        },
        ..loan
    }
}

/// Whether `payment` is the ledger entry of a payment of `amount` on
/// `loan_account`, numbered `number`, made at `now` and divided as `split`.
pub open spec fn is_ledger_entry(
    payment: Payment,
    loan_account: Pubkey,
    number: int,
    now: i64,
    amount: u64,
    split: Settlement,
) -> bool {
    &&& payment.loan == loan_account
    &&& payment.payment_number == number
    &&& payment.timestamp == now
    &&& payment.amount == amount
    &&& payment.principal_portion == split.principal_portion
    &&& payment.interest_portion == split.interest_portion
    &&& payment.fees_portion == split.servicing_fee
    &&& payment.status == PaymentStatus::Completed
    &&& forall|i: int| 0 <= i < 64 ==> payment.transaction_signature@[i] == 0u8
}

/// What a settled payment hands back: the ledger entry to append, the two
/// transfers to carry out, and the audit event.
#[derive(Clone, Debug, PartialEq, Eq)]
pub struct PaymentReceipt {
    /// The entry to append to the loan's ledger.
    pub payment: Payment,
    /// How the amount was divided.
    pub split: Settlement,
    /// To transfer from the borrower to the treasury.
    pub treasury_amount: u64,
    /// To transfer from the borrower to the lender.
    pub lender_amount: u64,
    pub event: PaymentMadeEvent,
}

/// Whether `receipt` reports a payment of `amount` on `before`, numbered after
/// `count`, made at `now` and divided as `split`.
pub open spec fn is_receipt(
    receipt: PaymentReceipt,
    before: Loan,
    count: u16,
    loan_account: Pubkey,
    now: i64,
    amount: u64,
    split: Settlement,
) -> bool {
    &&& receipt.split == split
    &&& is_ledger_entry(receipt.payment, loan_account, count + 1, now, amount, split)
    &&& receipt.treasury_amount == split.servicing_fee
    &&& receipt.lender_amount == split.lender_amount
    &&& receipt.event == (PaymentMadeEvent {
        loan_id: before.loan_id,
        payment_number: (count + 1) as u16,
        amount,
        principal: split.principal_portion,
        interest: split.interest_portion,
        fees: split.servicing_fee,
        timestamp: now,
    })
}

/// Settles a payment of `amount` by `caller` on which `interest` has accrued.
///
/// Refused payments change nothing. An accepted payment updates the loan and
/// the counter together and returns the ledger entry, the two transfers the
/// caller must carry out, and the audit event.
pub fn apply_payment(
    loan: &mut Loan,
    counter: &mut PaymentCounter,
    config: &PlatformConfig,
    caller: &Pubkey,
    loan_account: Pubkey,
    amount: u64,
    interest: u64,
    now: i64,
) -> (result: Result<PaymentReceipt, ErrorCode>)
    ensures
        result is Err <==> payment_refusal(*old(loan), *old(counter), *config, *caller, amount)
            is Some,
        result is Err ==> {
            &&& Some(result->Err_0) == payment_refusal(
                *old(loan),
                *old(counter),
                *config,
                *caller,
                amount,
            )
            &&& *final(loan) == *old(loan)
            &&& *final(counter) == *old(counter)
        },
        result is Ok ==> {
            let split = split_payment(
                amount,
                capped(interest, amount),
                basis_points_of(amount, config.servicing_fee) as u64,
            );
            &&& *final(loan) == loan_after_payment(*old(loan), split, amount)
            &&& final(counter).count == old(counter).count + 1
            &&& is_receipt(
                result->Ok_0,
                *old(loan),
                old(counter).count,
                loan_account,
                now,
                amount,
                split,
            )
            &&& result->Ok_0.payment.valid()
            &&& result->Ok_0.treasury_amount + result->Ok_0.lender_amount == amount
            &&& final(loan).remaining_principal <= old(loan).remaining_principal
            &&& old(loan).valid() ==> final(loan).valid()
            &&& old(loan).status.may_become(final(loan).status)
        },
{
    if config.paused {
        return Err(ErrorCode::PlatformPaused);
    }
    if !caller.same_as(&loan.borrower) {
        return Err(ErrorCode::UnauthorizedAccess);
    }
    if loan.status != LoanStatus::Active && loan.status != LoanStatus::Delinquent {
        return Err(ErrorCode::InvalidLoanStatus);
    }
    if amount == 0 {
        return Err(ErrorCode::PaymentTooSmall);
    }
    let split = match settle(amount, interest, config.servicing_fee) {
        Ok(split) => split,
        Err(e) => {
            return Err(e);
        },
    };
    let advance: i64 = match loan.payment_frequency {
        PaymentFrequency::BulletPayment => 0,
        _ => period_length(loan.payment_frequency, 0),
    };
    if amount > u64::MAX - loan.total_payments_made || loan.next_payment_due > i64::MAX - advance
        || counter.count == u16::MAX {
        return Err(ErrorCode::ArithmeticOverflow);
    }
    let number: u16 = counter.count + 1;
    let remaining: u64 = if loan.remaining_principal > split.principal_portion {
        loan.remaining_principal - split.principal_portion
    } else {
        0
    };
    loan.remaining_principal = remaining;
    loan.total_payments_made = loan.total_payments_made + amount;
    loan.next_payment_due = loan.next_payment_due + advance;
    loan.status = if remaining == 0 { LoanStatus::Completed } else { LoanStatus::Active };
    counter.count = number;
    let payment = Payment {
        loan: loan_account,
        payment_number: number,
        timestamp: now,
        amount,
        principal_portion: split.principal_portion,
        interest_portion: split.interest_portion,
        fees_portion: split.servicing_fee,
        status: PaymentStatus::Completed,
        transaction_signature: [0u8; 64],
    };
    let event = PaymentMadeEvent {
        loan_id: loan.loan_id.clone(),
        payment_number: number,
        amount,
        principal: split.principal_portion,
        interest: split.interest_portion,
        fees: split.servicing_fee,
        timestamp: now,
    };
    Ok(
        PaymentReceipt {
            payment,
            split,
            treasury_amount: split.servicing_fee,
            lender_amount: split.lender_amount,
            event,
        },
    )
}

/// Settles a payment of `amount` made by `caller` at `now`, charging the
/// interest that accrued on the outstanding principal.
///
/// Refused payments change nothing. An accepted payment updates the loan and
/// the counter together and returns the ledger entry, the two transfers the
/// caller must carry out, and the audit event.
pub fn make_payment(
    loan: &mut Loan,
    counter: &mut PaymentCounter,
    config: &PlatformConfig,
    caller: &Pubkey,
    loan_account: Pubkey,
    amount: u64,
    now: i64,
) -> (result: Result<PaymentReceipt, ErrorCode>)
    ensures
        result is Err <==> payment_refusal(*old(loan), *old(counter), *config, *caller, amount)
            is Some,
        result is Err ==> {
            &&& Some(result->Err_0) == payment_refusal(
                *old(loan),
                *old(counter),
                *config,
                *caller,
                amount,
            )
            &&& *final(loan) == *old(loan)
            &&& *final(counter) == *old(counter)
        },
        result is Ok ==> {
            let split = payment_split(*old(loan), *config, amount, now);
            &&& *final(loan) == loan_after_payment(*old(loan), split, amount)
            &&& final(counter).count == old(counter).count + 1
            &&& is_receipt(
                result->Ok_0,
                *old(loan),
                old(counter).count,
                loan_account,
                now,
                amount,
                split,
            )
            &&& result->Ok_0.payment.valid()
            &&& result->Ok_0.treasury_amount + result->Ok_0.lender_amount == amount
            &&& final(loan).remaining_principal <= old(loan).remaining_principal
            &&& old(loan).valid() ==> final(loan).valid()
            &&& old(loan).status.may_become(final(loan).status)
        },
{
    let elapsed: i128 = if loan.total_payments_made == 0 {
        now as i128 - loan.creation_timestamp as i128
    } else {
        now as i128 - loan.next_payment_due as i128 + 30 * 86_400
    };
    let interest: u64 = accrued_interest(
        loan.remaining_principal,
        loan.interest_rate,
        elapsed,
        amount,
    );
    apply_payment(loan, counter, config, caller, loan_account, amount, interest, now)
}

} // verus!
