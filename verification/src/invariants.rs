//! What holds of every payment and of every ledger, stated over the same
//! functions the contracts of the payment operations use.

use vstd::prelude::*;
use crate::payment::{
    interest_accrued, is_ledger_entry, is_receipt, loan_after_payment, payment_refusal,
    payment_split, split_payment, PaymentReceipt, Settlement, INTEREST_DIVISOR,
};
use crate::arith::basis_points_of;
use crate::state::{Loan, Payment, PaymentCounter, PlatformConfig, BASIS_POINTS};
use crate::types::{LoanStatus, Pubkey};

verus! {

/// A rate of at most one hundred percent never takes more than the amount
/// it is applied to: under a valid configuration no fee exceeds its base.
pub proof fn lemma_share_within_amount(amount: u64, rate_bps: u16)
    requires
        rate_bps <= BASIS_POINTS,
    ensures
        0 <= basis_points_of(amount, rate_bps) <= amount,
{
    assert(0 <= amount * rate_bps <= amount * 10_000) by (nonlinear_arith)
        requires
            0 <= rate_bps <= 10_000,
            amount >= 0,
    ;
}

/// Accrued interest is rounded up: over a positive span it is the least
/// whole amount that covers principal times rate times time.
pub proof fn lemma_interest_is_rounded_up(principal: u64, rate_bps: u16, elapsed: int)
    requires
        elapsed > 0,
    ensures
        interest_accrued(principal, rate_bps, elapsed) * INTEREST_DIVISOR >= principal * rate_bps
            * elapsed,
        (interest_accrued(principal, rate_bps, elapsed) - 1) * INTEREST_DIVISOR < principal
            * rate_bps * elapsed,
        interest_accrued(principal, rate_bps, elapsed) >= 0,
{
    let product = principal * rate_bps * elapsed;
    assert(product >= 0) by (nonlinear_arith)
        requires
            product == principal * rate_bps * elapsed,
            principal >= 0,
            rate_bps >= 0,
            elapsed > 0,
    ;
}

/// However a payment is divided, the three portions never exceed the amount,
/// and what goes to the treasury and to the lender is the amount exactly.
pub proof fn lemma_split_stays_within_amount(amount: u64, interest: u64, fee: u64)
    requires
        interest <= amount,
        fee <= amount,
    ensures
        ({
            let split = split_payment(amount, interest, fee);
            &&& split.principal_portion + split.interest_portion + split.servicing_fee <= amount
            &&& split.servicing_fee + split.lender_amount == amount
            &&& split.interest_portion <= interest
            &&& split.principal_portion <= amount - interest
        }),
{
}

/// A payment never raises the outstanding principal, however it is divided.
pub proof fn lemma_payment_never_raises_principal(loan: Loan, split: Settlement, amount: u64)
    ensures
        0 <= loan_after_payment(loan, split, amount).remaining_principal
            <= loan.remaining_principal,
{
}

/// After a payment the loan is completed exactly when nothing is
/// outstanding, and a loan that met its invariant before still meets it.
pub proof fn lemma_payment_completes_exactly_at_zero(loan: Loan, split: Settlement, amount: u64)
    ensures
        loan_after_payment(loan, split, amount).status == LoanStatus::Completed
            <==> loan_after_payment(loan, split, amount).remaining_principal == 0,
        loan.valid() ==> loan_after_payment(loan, split, amount).valid(),
{
}

/// A payment whose principal portion covers all that is outstanding
/// completes the loan in the same step.
pub proof fn lemma_final_payment_completes(loan: Loan, split: Settlement, amount: u64)
    requires
        split.principal_portion >= loan.remaining_principal,
    ensures
        loan_after_payment(loan, split, amount).remaining_principal == 0,
        loan_after_payment(loan, split, amount).status == LoanStatus::Completed,
{
}

/// Whether a loan's ledger numbers its entries 1, 2, 3 and so on, in order.
pub open spec fn is_gapless(ledger: Seq<Payment>) -> bool {
    forall|i: int| 0 <= i < ledger.len() ==> (#[trigger] ledger[i]).payment_number == i + 1
}

/// Appending the entry of an accepted payment to a gapless ledger whose
/// counter equals its length leaves it gapless, one entry longer, with the
/// counter still equal to its length.
pub proof fn lemma_ledger_stays_gapless(
    ledger: Seq<Payment>,
    loan: Loan,
    counter: PaymentCounter,
    config: PlatformConfig,
    caller: Pubkey,
    loan_account: Pubkey,
    amount: u64,
    now: i64,
    entry: Payment,
)
    requires
        is_gapless(ledger),
        counter.count == ledger.len(),
        payment_refusal(loan, counter, config, caller, amount) is None,
        is_ledger_entry(
            entry,
            loan_account,
            counter.count + 1,
            now,
            amount,
            payment_split(loan, config, amount, now),
        ),
    ensures
        is_gapless(ledger.push(entry)),
        ledger.push(entry).len() == counter.count + 1,
        forall|i: int| 0 <= i < ledger.len() ==> (#[trigger] ledger[i]).payment_number
            < entry.payment_number,
{
}

/// Paying is not idempotent. Two accepted payments with the same inputs,
/// one after the other, leave two different ledger entries with consecutive
/// numbers, and the loan has received the amount twice.
pub proof fn lemma_repeated_payment_accumulates(
    loan: Loan,
    counter: PaymentCounter,
    config: PlatformConfig,
    caller: Pubkey,
    loan_account: Pubkey,
    amount: u64,
    now: i64,
    first: PaymentReceipt,
    second: PaymentReceipt,
)
    requires
        payment_refusal(loan, counter, config, caller, amount) is None,
        is_receipt(
            first,
            loan,
            counter.count,
            loan_account,
            now,
            amount,
            payment_split(loan, config, amount, now),
        ),
        ({
            let between = loan_after_payment(
                loan,
                payment_split(loan, config, amount, now),
                amount,
            );
            let counted = PaymentCounter { count: (counter.count + 1) as u16 };
            &&& payment_refusal(between, counted, config, caller, amount) is None
            &&& is_receipt(
                second,
                between,
                counted.count,
                loan_account,
                now,
                amount,
                payment_split(between, config, amount, now),
            )
        }),
    ensures
        ({
            let between = loan_after_payment(
                loan,
                payment_split(loan, config, amount, now),
                amount,
            );
            let after = loan_after_payment(
                between,
                payment_split(between, config, amount, now),
                amount,
            );
            &&& first.payment.payment_number == counter.count + 1
            &&& second.payment.payment_number == first.payment.payment_number + 1
            &&& first.payment != second.payment
            &&& first != second
            &&& after.total_payments_made == loan.total_payments_made + 2 * amount
            &&& after.remaining_principal <= between.remaining_principal
                <= loan.remaining_principal
            &&& after != between
        }),
{
}

} // verus!
