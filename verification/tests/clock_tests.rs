use pomodoro::clock::{
    elapsed_nanos, instant_from_parts, local_now_nanos, span_whole_seconds, INSTANT_BOUND,
};

#[test]
fn instants_combine_seconds_and_nanoseconds() {
    assert_eq!(instant_from_parts(0, 0), 0);
    assert_eq!(instant_from_parts(2, 500), 2_000_000_500);
    assert_eq!(instant_from_parts(-1, 999_999_999), -1);
}

#[test]
fn elapsed_is_a_difference() {
    assert_eq!(elapsed_nanos(2_000_100_000, 900_000), 1_999_200_000);
    assert_eq!(elapsed_nanos(5, 9), -4);
}

#[test]
fn whole_seconds_round_toward_zero() {
    assert_eq!(span_whole_seconds(0), 0);
    assert_eq!(span_whole_seconds(1_999_999_999), 1);
    assert_eq!(span_whole_seconds(2_000_000_000), 2);
    assert_eq!(span_whole_seconds(-1), 0);
    assert_eq!(span_whole_seconds(-1_500_000_000), -1);
    assert_eq!(span_whole_seconds(-2_000_000_000), -2);
    assert_eq!(
        span_whole_seconds(9_223_372_036_854_775_807_000_000),
        9_223_372_036_854_775
    );
}

#[test]
fn the_clock_reads_a_representable_instant() {
    let t = local_now_nanos();
    assert!(-INSTANT_BOUND < t && t < INSTANT_BOUND);
    // After 2020-01-01.
    assert!(t > 1_577_836_800_000_000_000);
}
