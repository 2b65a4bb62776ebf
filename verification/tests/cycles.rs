use cpu_cycles_reader::{Cycles, Error};

#[test]
fn hz_round_trip() {
    assert_eq!(Cycles::from_hz(1000).as_hz(), 1000);
    assert_eq!(Cycles::from_hz(0).as_hz(), 0);
    assert_eq!(Cycles::from_hz(-42).as_hz(), -42);
    assert_eq!(Cycles::from_hz(i64::MAX).as_hz(), i64::MAX);
    assert_eq!(Cycles::from_hz(i64::MIN).as_hz(), i64::MIN);
}

#[test]
fn khz_round_trip() {
    assert_eq!(Cycles::from_khz(1).unwrap().as_hz(), 1000);
    assert_eq!(Cycles::from_khz(1).unwrap().as_khz(), 1);
    assert_eq!(Cycles::from_khz(-7).unwrap().as_khz(), -7);
    assert_eq!(Cycles::from_khz(9_000_000_000_000_000).unwrap().as_khz(), 9_000_000_000_000_000);
}

#[test]
fn mhz_and_ghz_round_trip() {
    assert_eq!(Cycles::from_mhz(2).unwrap().as_hz(), 2_000_000);
    assert_eq!(Cycles::from_mhz(2).unwrap().as_mhz(), 2);
    assert_eq!(Cycles::from_ghz(3).unwrap().as_hz(), 3_000_000_000);
    assert_eq!(Cycles::from_ghz(3).unwrap().as_ghz(), 3);
}

#[test]
fn conversions_truncate_toward_zero() {
    assert_eq!(Cycles::new(1_500_999).as_khz(), 1500);
    assert_eq!(Cycles::new(-1500).as_khz(), -1);
    assert_eq!(Cycles::new(999).as_khz(), 0);
    assert_eq!(Cycles::new(-999_999_999).as_mhz(), -999);
    assert_eq!(Cycles::new(1_000_000_000).as_mhz(), 1000);
    assert_eq!(Cycles::new(1_000_000_000_000).as_ghz(), 1000);
}

#[test]
fn from_unit_overflow_is_reported() {
    assert_eq!(Cycles::from_khz(i64::MAX), Err(Error::Overflow));
    assert_eq!(Cycles::from_khz(i64::MIN), Err(Error::Overflow));
    assert_eq!(Cycles::from_mhz(i64::MAX / 1000), Err(Error::Overflow));
    assert_eq!(Cycles::from_ghz(9_223_372_037), Err(Error::Overflow));
    assert!(Cycles::from_ghz(9_223_372_036).is_ok());
}

#[test]
fn checked_add_and_sub() {
    let a = Cycles::new(40);
    let b = Cycles::new(2);
    assert_eq!(a.checked_add(b).unwrap().as_hz(), 42);
    assert_eq!(b.checked_sub(a).unwrap().as_hz(), -38);
    assert_eq!(Cycles::max_value().checked_add(Cycles::new(1)), Err(Error::Overflow));
    assert_eq!(Cycles::new(i64::MIN).checked_sub(Cycles::new(1)), Err(Error::Overflow));
}

#[test]
fn checked_neg_and_mul() {
    assert_eq!(Cycles::new(-5).checked_neg().unwrap().as_hz(), 5);
    assert_eq!(Cycles::new(i64::MIN).checked_neg(), Err(Error::Overflow));
    assert_eq!(Cycles::new(21).checked_mul(2).unwrap().as_hz(), 42);
    assert_eq!(Cycles::new(-21).checked_mul(2).unwrap().as_hz(), -42);
    assert_eq!(Cycles::max_value().checked_mul(2), Err(Error::Overflow));
}

#[test]
fn checked_div_truncates_and_guards() {
    assert_eq!(Cycles::new(7).checked_div(2).unwrap().as_hz(), 3);
    assert_eq!(Cycles::new(-7).checked_div(2).unwrap().as_hz(), -3);
    assert_eq!(Cycles::new(7).checked_div(-2).unwrap().as_hz(), -3);
    assert_eq!(Cycles::new(-7).checked_div(-2).unwrap().as_hz(), 3);
    assert_eq!(Cycles::new(7).checked_div(0), Err(Error::DivideByZero));
    assert_eq!(Cycles::new(i64::MIN).checked_div(-1), Err(Error::Overflow));
}

#[test]
fn checked_rem_follows_the_dividend() {
    assert_eq!(Cycles::new(7).checked_rem(3).unwrap().as_hz(), 1);
    assert_eq!(Cycles::new(-7).checked_rem(3).unwrap().as_hz(), -1);
    assert_eq!(Cycles::new(7).checked_rem(-3).unwrap().as_hz(), 1);
    assert_eq!(Cycles::new(-7).checked_rem(-3).unwrap().as_hz(), -1);
    assert_eq!(Cycles::new(7).checked_rem(0), Err(Error::DivideByZero));
    assert_eq!(Cycles::new(i64::MIN).checked_rem(-1), Err(Error::Overflow));
}

#[test]
fn zero_max_and_default() {
    assert_eq!(Cycles::zero().as_hz(), 0);
    assert_eq!(Cycles::default(), Cycles::zero());
    assert_eq!(Cycles::max_value().as_hz(), i64::MAX);
}

#[test]
fn display_boundary_is_inclusive_toward_the_larger_unit() {
    assert_eq!(Cycles::new(1_000_000_000).display_string(), "1.00Ghz");
    assert_eq!(Cycles::new(999_999_999).display_string(), "1000.00Mhz");
    assert_eq!(Cycles::new(1_000_000).display_string(), "1.00Mhz");
    assert_eq!(Cycles::new(999_999).display_string(), "1000.00Khz");
    assert_eq!(Cycles::new(1000).display_string(), "1.00Khz");
    assert_eq!(Cycles::new(999).display_string(), "999Hz");
}

#[test]
fn display_fractions_are_rounded_to_the_nearest_hundredth() {
    assert_eq!(Cycles::new(1_500_000_000).display_string(), "1.50Ghz");
    assert_eq!(Cycles::new(1_234_567).display_string(), "1.23Mhz");
    assert_eq!(Cycles::new(123_456).display_string(), "123.46Khz");
    assert_eq!(Cycles::new(1_009_999_999).display_string(), "1.01Ghz");
    assert_eq!(Cycles::new(1_004_999_999).display_string(), "1.00Ghz");
}

#[test]
fn display_small_and_negative_values() {
    assert_eq!(Cycles::new(0).display_string(), "0Hz");
    assert_eq!(Cycles::new(7).display_string(), "7Hz");
    assert_eq!(Cycles::new(-5).display_string(), "-5Hz");
    assert_eq!(Cycles::new(-2_000_000_000).display_string(), "-2000000000Hz");
    assert_eq!(Cycles::new(i64::MIN).display_string(), "-9223372036854775808Hz");
}

#[test]
fn usage_of_a_two_ghz_delta_over_one_second() {
    let delta = Cycles::new(2_000_000_000);
    let reference = Cycles::from_hz(1_000_000_000);
    let usage = delta.as_usage(1_000_000, reference).unwrap();
    assert_eq!(usage.estimated_hz, 2_000_000_000);
    assert_eq!(usage.reference_hz, 1_000_000_000);
    let ratio = usage.estimated_hz as f64 / usage.reference_hz as f64;
    assert_eq!(ratio, 2.0);
}

#[test]
fn diff_of_a_two_ghz_delta_over_one_second() {
    let delta = Cycles::new(2_000_000_000);
    let reference = Cycles::from_hz(1_000_000_000);
    let diff = delta.as_diff(1_000_000, reference).unwrap();
    assert_eq!(diff.as_hz(), -1_000_000_000);
}

#[test]
fn usage_scales_with_the_elapsed_time() {
    let delta = Cycles::new(1_000_000);
    let reference = Cycles::from_hz(2_000_000);
    // One million cycles over half a second estimate two million Hz.
    let usage = delta.as_usage(500_000, reference).unwrap();
    assert_eq!(usage.estimated_hz, 2_000_000);
    let ratio = usage.estimated_hz as f64 / usage.reference_hz as f64;
    assert_eq!(ratio, 1.0);
}

#[test]
fn zero_elapsed_duration_is_a_divide_by_zero() {
    let delta = Cycles::new(2_000_000_000);
    let reference = Cycles::from_hz(1_000_000_000);
    assert_eq!(delta.as_usage(0, reference), Err(Error::DivideByZero));
    assert_eq!(delta.as_diff(0, reference), Err(Error::DivideByZero));
}

#[test]
fn usage_overflow_is_reported() {
    let delta = Cycles::max_value();
    let reference = Cycles::from_hz(1_000_000_000);
    assert_eq!(delta.as_usage(1_000_000, reference), Err(Error::Overflow));
    assert_eq!(delta.as_diff(1_000_000, reference), Err(Error::Overflow));
}

#[test]
fn diff_overflow_in_the_final_subtraction() {
    let delta = Cycles::new(-1_000_000);
    let reference = Cycles::max_value();
    // The estimate is negative one million Hz; the reference sits at the top
    // of the range, so the subtraction leaves it.
    assert_eq!(delta.as_diff(1_000_000, reference), Err(Error::Overflow));
    assert!(delta.as_usage(1_000_000, reference).is_ok());
}

#[test]
fn negative_delta_usage_is_exact() {
    let delta = Cycles::new(-3_000_000);
    let reference = Cycles::from_hz(1_000_000);
    let usage = delta.as_usage(2_000_000, reference).unwrap();
    assert_eq!(usage.estimated_hz, -1_500_000);
    let diff = delta.as_diff(2_000_000, reference).unwrap();
    assert_eq!(diff.as_hz(), 2_500_000);
}

#[test]
fn error_messages_name_the_failure() {
    assert_eq!(Error::FailedToCreate.message(), "failed to create cycles reader");
    assert_eq!(Error::FailedToRead.message(), "failed to read cpu cycles");
    assert_eq!(
        Error::InconsistentCore.message(),
        "cpu cores of CyclesInstant are inconsistent and cannot be subtracted"
    );
    assert_eq!(Error::DivideByZero.message(), "elapsed duration is zero");
    assert_eq!(Error::Overflow.message(), "cycle arithmetic exceeded the 64-bit signed range");
    assert_eq!(Error::FrequencySourceUnavailable.message(), "failed to read the reference frequency");
}
