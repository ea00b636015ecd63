//! Basis-point shares and calendar periods, the arithmetic every operation
//! builds on.

use vstd::prelude::*;
use crate::types::PaymentFrequency;

verus! {

/// `rate_bps` basis points of `amount`, rounded down.
pub open spec fn basis_points_of(amount: u64, rate_bps: u16) -> int {
    (amount * rate_bps) / 10_000
}

/// Computes the product of an amount and a rate in basis points, in 128
/// bits so that nothing is lost.
pub fn basis_points_product(amount: u64, rate_bps: u16) -> (product: u128)
    ensures
        product == amount * rate_bps,
        product <= 0xffff_ffff_ffff_ffff * 0xffff,
{
    let wide_amount: u128 = amount as u128;
    let wide_rate: u128 = rate_bps as u128;
    assert(wide_amount * wide_rate <= 0xffff_ffff_ffff_ffff * 0xffff) by (nonlinear_arith)
        requires
            wide_amount <= 0xffff_ffff_ffff_ffff,
            wide_rate <= 0xffff,
    ;
    wide_amount * wide_rate
}

/// Computes `rate_bps` basis points of `amount`, rounded down.
pub fn basis_points_share(amount: u64, rate_bps: u16) -> (share: u128)
    ensures
        share == basis_points_of(amount, rate_bps),
{
    basis_points_product(amount, rate_bps) / 10_000
}

/// Days between two payments under a schedule; a bullet loan has a single
/// payment after `term_months` months of thirty days.
pub open spec fn period_days(frequency: PaymentFrequency, term_months: u8) -> int {
    match frequency {
        PaymentFrequency::Monthly => 30,
        PaymentFrequency::Quarterly => 90,
        PaymentFrequency::Semiannual => 180,
        PaymentFrequency::Annual => 365,
        PaymentFrequency::BulletPayment => term_months * 30,
    }
}

/// Seconds between two payments under a schedule.
pub open spec fn period_seconds(frequency: PaymentFrequency, term_months: u8) -> int {
    period_days(frequency, term_months) * 86_400
}

/// Computes the seconds between two payments under a schedule.
pub fn period_length(frequency: PaymentFrequency, term_months: u8) -> (seconds: i64)
    ensures
        seconds == period_seconds(frequency, term_months),
{
    let days: i64 = match frequency {
        PaymentFrequency::Monthly => 30,
        PaymentFrequency::Quarterly => 90,
        PaymentFrequency::Semiannual => 180,
        PaymentFrequency::Annual => 365,
        PaymentFrequency::BulletPayment => (term_months as i64) * 30,
    };
    days * 86_400
}

/// Whole days in `seconds`, kept to sixteen bits as the audit events store them.
pub open spec fn days_overdue_of(seconds: int) -> int
    recommends
        seconds >= 0,
{
    (seconds / 86_400) % 65_536
}

/// Computes the whole days between `due` and a later `now`, kept to sixteen bits.
pub(crate) fn days_overdue(now: i64, due: i64) -> (days: u16)
    requires
        now >= due,
    ensures
        days == days_overdue_of(now - due),
{
    let late: i128 = now as i128 - due as i128;
    let days: i128 = late / 86_400;
    (days % 65_536) as u16
}

} // verus!
