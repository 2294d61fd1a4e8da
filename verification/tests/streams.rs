//! The accrual of a payment stream.

use treasury_management::{
    assign_role, cancel_payment_stream, create_payment_stream, execute_stream_payment,
    initialize_treasury, schedule_fits, Asset, Caller, PaymentStream, Pubkey, Role, Transfer,
    Treasury, TreasuryManagementError,
};

fn key(n: u8) -> Pubkey {
    Pubkey::new_from_array([n; 32])
}

fn treasury() -> Treasury {
    initialize_treasury(
        key(1),
        "Fund".to_string(),
        vec![key(11)],
        1,
        1_000_000,
        500_000,
        100_000,
        604800,
        false,
        0,
        0,
    )
    .unwrap()
}

fn admin() -> Role {
    assign_role(&Caller::TreasuryAuthority, 0, true, true, true, true, true, true, 0).unwrap()
}

fn stream(amount: u64, period: i64, start: i64, end: i64) -> PaymentStream {
    create_payment_stream(key(100), &admin(), key(2), key(30), key(50), amount, period, start, end, 0)
        .unwrap()
}

#[test]
fn nothing_is_due_before_the_start_or_within_the_first_period() {
    let s = stream(10, 100, 1000, 2000);
    assert_eq!(s.due_amount(i64::MIN), 0);
    assert_eq!(s.due_amount(999), 0);
    assert_eq!(s.due_amount(1000), 0);
    assert_eq!(s.due_amount(1099), 0);
}

#[test]
fn whole_periods_are_due_and_fractions_are_not() {
    let s = stream(10, 100, 1000, 2000);
    assert_eq!(s.due_amount(1100), 10);
    assert_eq!(s.due_amount(1199), 10);
    assert_eq!(s.due_amount(1200), 20);
    assert_eq!(s.due_amount(1950), 90);
}

#[test]
fn due_amount_stops_growing_at_the_end() {
    let s = stream(10, 100, 1000, 2050);
    assert_eq!(s.due_amount(1999), 90);
    assert_eq!(s.due_amount(2000), 100);
    assert_eq!(s.due_amount(2050), 100);
    assert_eq!(s.due_amount(2100), 100);
    assert_eq!(s.due_amount(i64::MAX), 100);
}

#[test]
fn due_amount_never_shrinks_as_time_passes() {
    let s = stream(7, 13, -50, 400);
    let mut previous = 0;
    let mut now = -100;
    while now < 500 {
        let due = s.due_amount(now);
        assert!(due >= previous);
        previous = due;
        now += 1;
    }
    assert_eq!(previous, 7 * (450 / 13));
}

#[test]
fn claim_consumes_whole_periods_and_leaves_the_remainder() {
    let mut t = treasury();
    let mut r = admin();
    let mut s = stream(10, 100, 1000, 2000);
    let paid = execute_stream_payment(&mut t, &mut s, &mut r, None, 1250);
    assert_eq!(paid, Ok(Transfer { recipient: key(30), asset: Asset::Token(key(50)), amount: 20 }));
    assert_eq!(s.last_payment_time, 1200);
    assert_eq!(s.total_paid, 20);
    assert_eq!(t.total_withdrawn, 20);
    assert_eq!(r.spending_limit_used, 20);
    assert!(s.is_well_formed());

    assert_eq!(s.due_amount(1250), 0);
    let before = (t.clone(), s, r);
    assert_eq!(
        execute_stream_payment(&mut t, &mut s, &mut r, None, 1250),
        Err(TreasuryManagementError::PaymentStreamNotDue)
    );
    assert_eq!((t.clone(), s, r), before);

    assert_eq!(s.due_amount(1299), 0);
    assert_eq!(s.due_amount(1300), 10);
    let paid = execute_stream_payment(&mut t, &mut s, &mut r, None, 5000);
    assert_eq!(paid, Ok(Transfer { recipient: key(30), asset: Asset::Token(key(50)), amount: 80 }));
    assert_eq!(s.last_payment_time, 2000);
    assert_eq!(s.total_paid, 100);
    assert_eq!(s.due_amount(i64::MAX), 0);
    assert_eq!(
        execute_stream_payment(&mut t, &mut s, &mut r, None, i64::MAX),
        Err(TreasuryManagementError::PaymentStreamNotDue)
    );
    assert_eq!(t.total_withdrawn, 100);
}

#[test]
fn no_period_is_paid_twice_however_the_claims_are_spread() {
    let untouched = stream(3, 7, 0, 1000);
    let mut t = treasury();
    let mut r = admin();
    let mut s = untouched;
    for now in [5, 7, 8, 20, 21, 500, 993, 994, 2000] {
        let expected = untouched.due_amount(now) - s.total_paid;
        assert_eq!(s.due_amount(now), expected);
        let _ = execute_stream_payment(&mut t, &mut s, &mut r, None, now);
        assert_eq!(s.total_paid, untouched.due_amount(now));
        assert_eq!(s.due_amount(now), 0);
    }
    assert_eq!(s.total_paid, 3 * 142);
    assert_eq!(t.total_withdrawn, 3 * 142);
}

#[test]
fn stream_that_ends_before_it_starts_never_pays() {
    let s = stream(10, 100, 2000, 1000);
    assert!(s.is_well_formed());
    assert_eq!(s.due_amount(1500), 0);
    assert_eq!(s.due_amount(2500), 0);
    assert_eq!(s.due_amount(i64::MAX), 0);
}

#[test]
fn stream_whose_periods_have_no_length_never_pays() {
    for period in [0, -1, -100, i64::MIN] {
        let mut s = stream(10, period, 1000, 2000);
        assert!(s.is_well_formed());
        for now in [i64::MIN, 999, 1000, 1500, 2000, i64::MAX] {
            assert_eq!(s.due_amount(now), 0);
        }
        let mut t = treasury();
        let mut r = admin();
        assert_eq!(
            execute_stream_payment(&mut t, &mut s, &mut r, None, 1500),
            Err(TreasuryManagementError::PaymentStreamNotDue)
        );
        s.advance(1500);
        assert_eq!(s, stream(10, period, 1000, 2000));
    }
}

#[test]
fn stream_of_extreme_terms_is_counted_exactly() {
    assert!(schedule_fits(1, 1, i64::MIN, i64::MAX));
    assert!(!schedule_fits(2, 1, i64::MIN, i64::MAX));
    assert!(!schedule_fits(u64::MAX, i64::MAX, i64::MIN, i64::MAX));
    assert!(schedule_fits(u64::MAX, i64::MAX, i64::MIN, -1));
    assert!(schedule_fits(u64::MAX, i64::MAX, i64::MIN, -3));
    assert!(schedule_fits(u64::MAX, 10, 0, 19));
    assert!(!schedule_fits(u64::MAX, 10, 0, 20));
    assert!(schedule_fits(u64::MAX, 0, 0, 10));
    assert!(schedule_fits(u64::MAX, -5, i64::MIN, i64::MAX));
    let s = stream(1, 1, i64::MIN, i64::MAX);
    assert_eq!(s.due_amount(i64::MAX), u64::MAX);
    assert_eq!(s.due_amount(0), 1u64 << 63);
}

#[test]
fn inactive_stream_pays_nothing() {
    let mut t = treasury();
    let mut r = admin();
    let mut s = stream(10, 100, 1000, 2000);
    assert_eq!(cancel_payment_stream(&mut s, &r), Ok(()));
    assert!(!s.is_active);
    assert_eq!(s.due_amount(1500), 0);
    assert_eq!(
        execute_stream_payment(&mut t, &mut s, &mut r, None, 1500),
        Err(TreasuryManagementError::PaymentStreamInactive)
    );
    assert_eq!(
        cancel_payment_stream(&mut s, &r),
        Err(TreasuryManagementError::PaymentStreamInactive)
    );
    assert_eq!(t.total_withdrawn, 0);
}

#[test]
fn stream_is_opened_and_closed_only_with_the_capability() {
    let mut plain = admin();
    plain.can_create_streams = false;
    assert_eq!(
        create_payment_stream(key(100), &plain, key(2), key(30), key(50), 10, 100, 0, 1000, 0),
        Err(TreasuryManagementError::InsufficientPermissions)
    );
    assert_eq!(
        create_payment_stream(key(100), &plain, key(2), key(30), key(50), 0, 100, 0, 1000, 0),
        Err(TreasuryManagementError::InsufficientPermissions)
    );
    assert_eq!(
        create_payment_stream(key(100), &admin(), key(2), key(30), key(50), 0, 100, 0, 1000, 0),
        Err(TreasuryManagementError::InvalidPaymentAmount)
    );
    let mut s = stream(10, 100, 0, 1000);
    let before = s;
    assert_eq!(
        cancel_payment_stream(&mut s, &plain),
        Err(TreasuryManagementError::InsufficientPermissions)
    );
    assert_eq!(s, before);
}

#[test]
fn stream_with_broken_bookkeeping_is_told_apart() {
    let good = stream(10, 100, 1000, 2000);
    assert!(good.is_well_formed());
    assert!(!PaymentStream { last_payment_time: 1050, ..good }.is_well_formed());
    assert!(!PaymentStream { last_payment_time: 1100, ..good }.is_well_formed());
    assert!(PaymentStream { last_payment_time: 1100, total_paid: 10, ..good }.is_well_formed());
    assert!(!PaymentStream { last_payment_time: 2100, total_paid: 110, ..good }.is_well_formed());
    assert!(!PaymentStream { last_payment_time: 900, ..good }.is_well_formed());
    assert!(PaymentStream { period_duration: 0, ..good }.is_well_formed());
    assert!(PaymentStream { period_duration: -100, ..good }.is_well_formed());
    assert!(!PaymentStream { period_duration: 0, last_payment_time: 1100, ..good }.is_well_formed());
    assert!(!PaymentStream { period_duration: -100, total_paid: 10, ..good }.is_well_formed());
    assert!(!PaymentStream { amount_per_period: 0, ..good }.is_well_formed());
    assert!(!PaymentStream { amount_per_period: u64::MAX, ..good }.is_well_formed());
}

#[test]
fn claim_is_counted_against_the_limit_of_the_claimant() {
    let mut t = treasury();
    let mut r = assign_role(&Caller::TreasuryAuthority, 2, true, false, false, false, false, false, 0)
        .unwrap();
    let mut s = stream(60_000, 100, 0, 1000);
    assert_eq!(
        execute_stream_payment(&mut t, &mut s, &mut r, None, 250),
        Err(TreasuryManagementError::SpendingLimitExceeded)
    );
    assert_eq!(s.total_paid, 0);
    assert_eq!(s.last_payment_time, 0);
    assert_eq!(
        execute_stream_payment(&mut t, &mut s, &mut r, None, 150),
        Ok(Transfer { recipient: key(30), asset: Asset::Token(key(50)), amount: 60_000 })
    );
    assert_eq!(r.spending_limit_used, 60_000);
}
