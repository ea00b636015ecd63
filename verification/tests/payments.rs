use loan_core::arith::{basis_points_product, basis_points_share, period_length};
use loan_core::payment::{accrued_interest, apply_payment, make_payment, settle, Settlement};
use loan_core::state::{Loan, PaymentCounter, PlatformConfig};
use loan_core::types::{
    CollateralType, ErrorCode, LoanBumps, LoanStatus, PaymentFrequency, PaymentStatus, Pubkey,
};

const DAY: i64 = 86_400;
const T0: i64 = 1_700_000_000;

fn key(tag: u8) -> Pubkey {
    Pubkey::new([tag; 32])
}

fn config() -> PlatformConfig {
    PlatformConfig {
        authority: key(1),
        treasury: key(3),
        max_ltv: 9000,
        min_loan_amount: 1_000,
        max_loan_amount: 10_000_000,
        origination_fee: 500,
        servicing_fee: 100,
        min_interest_rate: 300,
        default_interest_rate: 800,
        late_fee_rate: 200,
        grace_period_days: 5,
        treasury_token_account: key(4),
        paused: false,
    }
}

fn active_loan(frequency: PaymentFrequency) -> Loan {
    Loan {
        loan_id: String::from("loan-1"),
        creation_timestamp: T0,
        status: LoanStatus::Active,
        borrower: key(2),
        lender: key(1),
        property_id: String::from("prop-1"),
        property_value: 150_000,
        ltv_ratio: 8000,
        collateral_type: CollateralType::Mixed,
        principal_amount: 100_000,
        interest_rate: 1000,
        term_months: 12,
        payment_frequency: frequency,
        origination_fee: 500,
        next_payment_due: T0 + 30 * DAY,
        total_payments_made: 0,
        remaining_principal: 100_000,
        legal_doc_hash: [0u8; 32],
        ucc_filing_reference: String::from("ucc-1"),
        kyc_verified: true,
        bumps: LoanBumps { loan_bump: 1, vault_bump: 2 },
    }
}

#[test]
fn basis_points_share_rounds_down() {
    assert_eq!(basis_points_share(100_000, 500), 5_000);
    assert_eq!(basis_points_share(150_000, 8000), 120_000);
    assert_eq!(basis_points_share(9_999, 1), 0);
    assert_eq!(basis_points_share(10_000, 1), 1);
    assert_eq!(basis_points_share(0, 65_535), 0);
    assert_eq!(
        basis_points_share(u64::MAX, 65_535),
        (u64::MAX as u128) * 65_535 / 10_000
    );
}

#[test]
fn period_length_by_schedule() {
    assert_eq!(period_length(PaymentFrequency::Monthly, 7), 30 * DAY);
    assert_eq!(period_length(PaymentFrequency::Quarterly, 7), 90 * DAY);
    assert_eq!(period_length(PaymentFrequency::Semiannual, 7), 180 * DAY);
    assert_eq!(period_length(PaymentFrequency::Annual, 7), 365 * DAY);
    assert_eq!(period_length(PaymentFrequency::BulletPayment, 7), 210 * DAY);
    assert_eq!(period_length(PaymentFrequency::BulletPayment, 0), 0);
    assert_eq!(period_length(PaymentFrequency::BulletPayment, 255), 7_650 * DAY);
}

#[test]
fn accrued_interest_rounds_up() {
    // 100000 at 10% over 30 of 365 days is 821.9..., charged as 822.
    assert_eq!(accrued_interest(100_000, 1000, (30 * DAY) as i128, u64::MAX), 822);
    // A full year at 10% is exactly 10000: nothing to round.
    assert_eq!(accrued_interest(100_000, 1000, (365 * DAY) as i128, u64::MAX), 10_000);
    // One second more and the next unit is charged.
    assert_eq!(accrued_interest(100_000, 1000, (365 * DAY + 1) as i128, u64::MAX), 10_001);
    // The smallest positive accrual is one unit.
    assert_eq!(accrued_interest(1, 1, 1, u64::MAX), 1);
}

#[test]
fn accrued_interest_is_capped_and_never_negative() {
    assert_eq!(accrued_interest(100_000, 1000, (30 * DAY) as i128, 500), 500);
    assert_eq!(accrued_interest(100_000, 1000, (30 * DAY) as i128, 822), 822);
    assert_eq!(accrued_interest(100_000, 1000, 0, 500), 0);
    assert_eq!(accrued_interest(100_000, 1000, -(30 * DAY) as i128, 500), 0);
    assert_eq!(accrued_interest(0, 1000, (30 * DAY) as i128, 500), 0);
    assert_eq!(accrued_interest(100_000, 0, (30 * DAY) as i128, 500), 0);
}

#[test]
fn accrued_interest_at_the_ends_of_the_range() {
    let longest: i128 = 1i128 << 65;
    let exact: u128 = {
        // u64::MAX * 65535 * 2^65 does not fit in 128 bits; divide in two steps.
        let yearly = (u64::MAX as u128) * 65_535;
        let d = 315_360_000_000u128;
        let whole = (yearly / d) * (longest as u128);
        let rest = (yearly % d) * (longest as u128);
        whole + rest / d + if rest % d != 0 { 1 } else { 0 }
    };
    assert!(exact > u64::MAX as u128);
    assert_eq!(accrued_interest(u64::MAX, 65_535, longest, u64::MAX), u64::MAX);
    assert_eq!(accrued_interest(u64::MAX, 65_535, longest, 12_345), 12_345);
    assert_eq!(accrued_interest(u64::MAX, 65_535, -longest, 12_345), 0);
}

#[test]
fn settle_takes_fee_out_of_interest_first() {
    let split = settle(1_000, 100, 100).unwrap();
    assert_eq!(
        split,
        Settlement {
            interest_due: 100,
            servicing_fee: 10,
            interest_portion: 90,
            principal_portion: 900,
            lender_amount: 990,
        }
    );
    assert_eq!(split.interest_portion + split.principal_portion + split.servicing_fee, 1_000);
}

#[test]
fn settle_lets_principal_bear_the_rest_of_the_fee() {
    let split = settle(1_000, 8, 100).unwrap();
    assert_eq!(
        split,
        Settlement {
            interest_due: 8,
            servicing_fee: 10,
            interest_portion: 0,
            principal_portion: 990,
            lender_amount: 990,
        }
    );
}

#[test]
fn settle_with_fee_equal_to_interest_leaves_no_interest() {
    let split = settle(1_000, 10, 100).unwrap();
    assert_eq!(split.interest_portion, 0);
    assert_eq!(split.principal_portion, 990);
    assert_eq!(split.servicing_fee, 10);
}

#[test]
fn settle_caps_interest_at_the_amount() {
    let split = settle(1_000, 5_000, 100).unwrap();
    assert_eq!(split.interest_due, 1_000);
    assert_eq!(split.interest_portion, 990);
    assert_eq!(split.principal_portion, 0);
    assert_eq!(split.lender_amount, 990);
}

#[test]
fn settle_floors_principal_at_zero() {
    // Fee of the whole amount: nothing is left for interest or principal.
    let split = settle(1_000, 400, 10_000).unwrap();
    assert_eq!(split.servicing_fee, 1_000);
    assert_eq!(split.interest_portion, 0);
    assert_eq!(split.principal_portion, 0);
    assert_eq!(split.lender_amount, 0);
}

#[test]
fn settle_refuses_a_fee_above_the_amount() {
    assert_eq!(settle(10_000, 0, 10_001), Err(ErrorCode::ArithmeticOverflow));
    assert!(settle(1_000, 0, 10_001).is_ok());
    assert_eq!(settle(u64::MAX, 0, 65_535), Err(ErrorCode::ArithmeticOverflow));
    assert!(settle(0, 0, 65_535).is_ok());
    assert!(settle(9_999, 0, 10_001).is_ok());
}

#[test]
fn first_payment_accrues_since_creation() {
    let cfg = config();
    let mut loan = active_loan(PaymentFrequency::Monthly);
    let mut counter = PaymentCounter { count: 0 };
    let now = T0 + 30 * DAY;
    let receipt =
        make_payment(&mut loan, &mut counter, &cfg, &key(2), key(50), 10_000, now).unwrap();
    assert_eq!(receipt.split.interest_due, 822);
    assert_eq!(receipt.split.servicing_fee, 100);
    assert_eq!(receipt.split.interest_portion, 722);
    assert_eq!(receipt.split.principal_portion, 9_178);
    assert_eq!(receipt.treasury_amount, 100);
    assert_eq!(receipt.lender_amount, 9_900);
    assert_eq!(receipt.treasury_amount + receipt.lender_amount, 10_000);
    assert_eq!(loan.remaining_principal, 90_822);
    assert_eq!(loan.total_payments_made, 10_000);
    assert_eq!(loan.next_payment_due, T0 + 60 * DAY);
    assert_eq!(loan.status, LoanStatus::Active);
    assert_eq!(counter.count, 1);
    let payment = receipt.payment;
    assert_eq!(payment.loan, key(50));
    assert_eq!(payment.payment_number, 1);
    assert_eq!(payment.timestamp, now);
    assert_eq!(payment.amount, 10_000);
    assert_eq!(payment.principal_portion, 9_178);
    assert_eq!(payment.interest_portion, 722);
    assert_eq!(payment.fees_portion, 100);
    assert_eq!(payment.status, PaymentStatus::Completed);
    assert_eq!(payment.transaction_signature, [0u8; 64]);
    assert_eq!(receipt.event.loan_id, "loan-1");
    assert_eq!(receipt.event.payment_number, 1);
    assert_eq!(receipt.event.amount, 10_000);
    assert_eq!(receipt.event.principal, 9_178);
    assert_eq!(receipt.event.interest, 722);
    assert_eq!(receipt.event.fees, 100);
    assert_eq!(receipt.event.timestamp, now);
}

#[test]
fn later_payment_accrues_since_due_date_plus_thirty_days() {
    let cfg = config();
    let mut loan = active_loan(PaymentFrequency::Quarterly);
    loan.total_payments_made = 5_000;
    loan.next_payment_due = T0 + 90 * DAY;
    let mut counter = PaymentCounter { count: 3 };
    // Paid on the due date: thirty days of interest, whatever the schedule.
    let receipt =
        make_payment(&mut loan, &mut counter, &cfg, &key(2), key(50), 10_000, T0 + 90 * DAY)
            .unwrap();
    assert_eq!(receipt.split.interest_due, 822);
    assert_eq!(receipt.payment.payment_number, 4);
    assert_eq!(loan.next_payment_due, T0 + 180 * DAY);
    assert_eq!(loan.total_payments_made, 15_000);
}

#[test]
fn payment_made_early_enough_accrues_nothing() {
    let cfg = config();
    let mut loan = active_loan(PaymentFrequency::Monthly);
    loan.total_payments_made = 1;
    let mut counter = PaymentCounter { count: 1 };
    let receipt =
        make_payment(&mut loan, &mut counter, &cfg, &key(2), key(50), 10_000, T0 - DAY).unwrap();
    assert_eq!(receipt.split.interest_due, 0);
    assert_eq!(receipt.split.interest_portion, 0);
    assert_eq!(receipt.split.principal_portion, 9_900);
    assert_eq!(loan.remaining_principal, 90_100);
}

#[test]
fn make_payment_twice_is_not_idempotent() {
    let cfg = config();
    let mut loan = active_loan(PaymentFrequency::Monthly);
    let mut counter = PaymentCounter { count: 0 };
    let now = T0 + 30 * DAY;
    let first =
        make_payment(&mut loan, &mut counter, &cfg, &key(2), key(50), 10_000, now).unwrap();
    let between = loan.clone();
    let second =
        make_payment(&mut loan, &mut counter, &cfg, &key(2), key(50), 10_000, now).unwrap();
    assert_eq!(first.payment.payment_number, 1);
    assert_eq!(second.payment.payment_number, 2);
    assert_ne!(first.payment, second.payment);
    assert_eq!(counter.count, 2);
    assert_eq!(loan.total_payments_made, 20_000);
    // The second payment accrues nothing: the due date has moved on by then.
    assert_eq!(second.split.interest_due, 0);
    assert_eq!(second.split.principal_portion, 9_900);
    assert_eq!(between.remaining_principal, 90_822);
    assert_eq!(loan.remaining_principal, 80_922);
    assert_eq!(loan.next_payment_due, T0 + 90 * DAY);
}

#[test]
fn payment_numbers_rise_by_one_without_gaps() {
    let cfg = config();
    let mut loan = active_loan(PaymentFrequency::Monthly);
    let mut counter = PaymentCounter { count: 0 };
    let mut remaining = loan.remaining_principal;
    for expected in 1u16..=8 {
        let receipt =
            make_payment(&mut loan, &mut counter, &cfg, &key(2), key(50), 1_000, T0 + 30 * DAY)
                .unwrap();
        assert_eq!(receipt.payment.payment_number, expected);
        assert_eq!(counter.count, expected);
        assert!(loan.remaining_principal <= remaining);
        remaining = loan.remaining_principal;
        assert_eq!(loan.status == LoanStatus::Completed, loan.remaining_principal == 0);
    }
}

#[test]
fn refused_payment_leaves_the_counter_alone() {
    let cfg = config();
    let mut loan = active_loan(PaymentFrequency::Monthly);
    let mut counter = PaymentCounter { count: 4 };
    let before = loan.clone();
    assert_eq!(
        make_payment(&mut loan, &mut counter, &cfg, &key(2), key(50), 0, T0).unwrap_err(),
        ErrorCode::PaymentTooSmall
    );
    assert_eq!(counter.count, 4);
    assert_eq!(loan, before);
}

#[test]
fn final_payment_completes_the_loan() {
    let cfg = config();
    let mut loan = active_loan(PaymentFrequency::Monthly);
    loan.remaining_principal = 9_900;
    loan.interest_rate = 0;
    let mut counter = PaymentCounter { count: 11 };
    let receipt =
        make_payment(&mut loan, &mut counter, &cfg, &key(2), key(50), 10_000, T0 + 30 * DAY)
            .unwrap();
    assert_eq!(receipt.split.principal_portion, 9_900);
    assert_eq!(loan.remaining_principal, 0);
    assert_eq!(loan.status, LoanStatus::Completed);
    assert_eq!(receipt.payment.payment_number, 12);
    // A completed loan takes no more payments.
    assert_eq!(
        make_payment(&mut loan, &mut counter, &cfg, &key(2), key(50), 10_000, T0 + 30 * DAY)
            .unwrap_err(),
        ErrorCode::InvalidLoanStatus
    );
}

#[test]
fn overpayment_floors_remaining_principal_at_zero() {
    let cfg = config();
    let mut loan = active_loan(PaymentFrequency::Monthly);
    loan.remaining_principal = 500;
    let mut counter = PaymentCounter { count: 0 };
    make_payment(&mut loan, &mut counter, &cfg, &key(2), key(50), 10_000, T0 + 30 * DAY).unwrap();
    assert_eq!(loan.remaining_principal, 0);
    assert_eq!(loan.status, LoanStatus::Completed);
}

#[test]
fn payment_brings_a_delinquent_loan_back_to_active() {
    let cfg = config();
    let mut loan = active_loan(PaymentFrequency::Monthly);
    loan.status = LoanStatus::Delinquent;
    let mut counter = PaymentCounter { count: 0 };
    make_payment(&mut loan, &mut counter, &cfg, &key(2), key(50), 1_000, T0 + 40 * DAY).unwrap();
    assert_eq!(loan.status, LoanStatus::Active);
    let mut loan = active_loan(PaymentFrequency::Monthly);
    loan.status = LoanStatus::Delinquent;
    loan.remaining_principal = 10;
    make_payment(&mut loan, &mut counter, &cfg, &key(2), key(50), 1_000, T0 + 40 * DAY).unwrap();
    assert_eq!(loan.status, LoanStatus::Completed);
}

#[test]
fn bullet_loan_keeps_its_due_date() {
    let cfg = config();
    let mut loan = active_loan(PaymentFrequency::BulletPayment);
    loan.next_payment_due = T0 + 360 * DAY;
    let mut counter = PaymentCounter { count: 0 };
    make_payment(&mut loan, &mut counter, &cfg, &key(2), key(50), 1_000, T0 + 30 * DAY).unwrap();
    assert_eq!(loan.next_payment_due, T0 + 360 * DAY);
}

#[test]
fn due_date_advances_by_schedule() {
    let cfg = config();
    let cases = [
        (PaymentFrequency::Monthly, 30),
        (PaymentFrequency::Quarterly, 90),
        (PaymentFrequency::Semiannual, 180),
        (PaymentFrequency::Annual, 365),
    ];
    for (frequency, days) in cases {
        let mut loan = active_loan(frequency);
        let due = loan.next_payment_due;
        let mut counter = PaymentCounter { count: 0 };
        make_payment(&mut loan, &mut counter, &cfg, &key(2), key(50), 1_000, T0 + DAY).unwrap();
        assert_eq!(loan.next_payment_due, due + days * DAY);
    }
}

#[test]
fn make_payment_guards_come_in_order() {
    let mut cfg = config();
    let mut counter = PaymentCounter { count: 0 };
    let mut loan = active_loan(PaymentFrequency::Monthly);
    let before = loan.clone();
    assert_eq!(
        make_payment(&mut loan, &mut counter, &cfg, &key(9), key(50), 1_000, T0).unwrap_err(),
        ErrorCode::UnauthorizedAccess
    );
    loan.status = LoanStatus::Approved;
    assert_eq!(
        make_payment(&mut loan, &mut counter, &cfg, &key(2), key(50), 0, T0).unwrap_err(),
        ErrorCode::InvalidLoanStatus
    );
    for status in [
        LoanStatus::Pending,
        LoanStatus::Default,
        LoanStatus::Completed,
        LoanStatus::Cancelled,
    ] {
        loan.status = status;
        assert_eq!(
            make_payment(&mut loan, &mut counter, &cfg, &key(2), key(50), 1_000, T0).unwrap_err(),
            ErrorCode::InvalidLoanStatus
        );
    }
    loan.status = LoanStatus::Active;
    cfg.paused = true;
    assert_eq!(
        make_payment(&mut loan, &mut counter, &cfg, &key(9), key(50), 0, T0).unwrap_err(),
        ErrorCode::PlatformPaused
    );
    assert_eq!(loan, before);
    assert_eq!(counter.count, 0);
}

#[test]
fn make_payment_reports_overflow() {
    let cfg = config();
    let mut counter = PaymentCounter { count: u16::MAX };
    let mut loan = active_loan(PaymentFrequency::Monthly);
    let before = loan.clone();
    assert_eq!(
        make_payment(&mut loan, &mut counter, &cfg, &key(2), key(50), 1_000, T0).unwrap_err(),
        ErrorCode::ArithmeticOverflow
    );
    assert_eq!(counter.count, u16::MAX);
    let mut counter = PaymentCounter { count: 0 };
    loan.total_payments_made = u64::MAX - 999;
    assert_eq!(
        make_payment(&mut loan, &mut counter, &cfg, &key(2), key(50), 1_000, T0).unwrap_err(),
        ErrorCode::ArithmeticOverflow
    );
    loan.total_payments_made = 0;
    loan.next_payment_due = i64::MAX - 30 * DAY + 1;
    assert_eq!(
        make_payment(&mut loan, &mut counter, &cfg, &key(2), key(50), 1_000, T0).unwrap_err(),
        ErrorCode::ArithmeticOverflow
    );
    loan.next_payment_due = before.next_payment_due;
    let mut greedy = config();
    greedy.servicing_fee = 10_001;
    assert_eq!(
        make_payment(&mut loan, &mut counter, &greedy, &key(2), key(50), 10_000, T0).unwrap_err(),
        ErrorCode::ArithmeticOverflow
    );
    assert_eq!(loan, before);
    assert_eq!(counter.count, 0);
}

#[test]
fn make_payment_at_the_ends_of_time() {
    let cfg = config();
    let mut loan = active_loan(PaymentFrequency::BulletPayment);
    loan.creation_timestamp = i64::MIN;
    loan.remaining_principal = u64::MAX;
    loan.principal_amount = u64::MAX;
    loan.interest_rate = u16::MAX;
    let mut counter = PaymentCounter { count: 0 };
    let receipt =
        make_payment(&mut loan, &mut counter, &cfg, &key(2), key(50), 1_000, i64::MAX).unwrap();
    assert_eq!(receipt.split.interest_due, 1_000);
    assert_eq!(receipt.split.interest_portion, 990);
    assert_eq!(receipt.split.principal_portion, 0);
    assert_eq!(loan.remaining_principal, u64::MAX);
}

#[test]
fn apply_payment_takes_the_interest_it_is_given() {
    let cfg = config();
    let mut loan = active_loan(PaymentFrequency::Monthly);
    let mut counter = PaymentCounter { count: 0 };
    let receipt =
        apply_payment(&mut loan, &mut counter, &cfg, &key(2), key(50), 10_000, 2_500, T0).unwrap();
    assert_eq!(receipt.split.interest_due, 2_500);
    assert_eq!(receipt.split.interest_portion, 2_400);
    assert_eq!(receipt.split.principal_portion, 7_500);
    assert_eq!(loan.remaining_principal, 92_500);
    let receipt =
        apply_payment(&mut loan, &mut counter, &cfg, &key(2), key(50), 10_000, 99_999, T0).unwrap();
    assert_eq!(receipt.split.interest_due, 10_000);
    assert_eq!(receipt.split.principal_portion, 0);
    assert_eq!(loan.remaining_principal, 92_500);
    assert_eq!(counter.count, 2);
}

#[test]
fn a_rate_of_one_hundred_percent_takes_the_whole_amount_and_no_more() {
    assert_eq!(basis_points_share(u64::MAX, 10_000), u64::MAX as u128);
    assert_eq!(basis_points_share(12_345, 10_000), 12_345);
    assert_eq!(basis_points_share(12_345, 9_999), 12_343);
    let split = settle(u64::MAX, u64::MAX, 10_000).unwrap();
    assert_eq!(split.servicing_fee, u64::MAX);
    assert_eq!(split.lender_amount, 0);
    assert_eq!(split.interest_portion, 0);
    assert_eq!(split.principal_portion, 0);
}

#[test]
fn portions_never_exceed_the_amount() {
    for amount in [1u64, 7, 99, 1_000, 10_001, 123_456_789] {
        for interest in [0u64, 1, amount / 3, amount, amount + 5] {
            for bps in [0u16, 1, 100, 5_000, 9_999, 10_000] {
                let split = settle(amount, interest, bps).unwrap();
                assert!(
                    split.principal_portion + split.interest_portion + split.servicing_fee
                        <= amount
                );
                assert_eq!(split.servicing_fee + split.lender_amount, amount);
                assert!(split.interest_due <= amount);
            }
        }
    }
}

#[test]
fn basis_points_product_keeps_every_bit() {
    assert_eq!(basis_points_product(0, 0), 0);
    assert_eq!(basis_points_product(100_000, 500), 50_000_000);
    assert_eq!(basis_points_product(u64::MAX, u16::MAX), (u64::MAX as u128) * 65_535);
}
