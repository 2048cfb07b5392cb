use pomodoro::derangements::{comb, drgmt_gen, perm, pos_or_neg_cond};

#[test]
fn perm_is_factorial_of_one_less() {
    assert_eq!(perm(0), 1);
    assert_eq!(perm(1), 1);
    assert_eq!(perm(2), 1);
    assert_eq!(perm(3), 2);
    assert_eq!(perm(4), 6);
    assert_eq!(perm(5), 24);
    assert_eq!(perm(11), 3_628_800);
}

#[test]
fn perm_largest_that_fits() {
    // 34! is the largest factorial below 2^128.
    let mut expected: u128 = 1;
    for i in 2..35u128 {
        expected *= i;
    }
    assert_eq!(perm(35), expected);
}

#[test]
fn perm_step_law_on_values() {
    for n in 1..30usize {
        assert_eq!(perm(n + 1), (n as u128) * perm(n));
    }
}

#[test]
fn comb_divides_falling_product_by_k() {
    assert_eq!(comb(5, 1), 5);
    assert_eq!(comb(5, 2), 10);
    assert_eq!(comb(5, 3), 20);
    assert_eq!(comb(6, 6), 120);
    assert_eq!(comb(7, 4), 210);
    assert_eq!(comb(0, 1), 0);
}

#[test]
fn comb_one_past_the_end_is_zero() {
    assert_eq!(comb(4, 5), 0);
    assert_eq!(comb(9, 10), 0);
}

#[test]
fn comb_pairs() {
    for n in 0..40usize {
        assert_eq!(comb(n, 2), (n as u128) * (n as u128).saturating_sub(1) / 2);
    }
}

#[test]
fn sign_follows_condition() {
    assert_eq!(pos_or_neg_cond(1, true), 1);
    assert_eq!(pos_or_neg_cond(1, false), -1);
    assert_eq!(pos_or_neg_cond(5, false), -5);
    assert_eq!(pos_or_neg_cond(0, false), 0);
    assert_eq!(pos_or_neg_cond(7, true), 7);
}

#[test]
fn sign_keeps_low_bits_of_large_counts() {
    let big: usize = (1usize << 32) + 3;
    assert_eq!(pos_or_neg_cond(big, true), 3);
    assert_eq!(pos_or_neg_cond(big, false), -3);
}

#[test]
fn drgmt_gen_is_zero_outside_the_marked_range() {
    assert_eq!(drgmt_gen(3, 4, 0), Ok(0));
    assert_eq!(drgmt_gen(5, 2, 3), Ok(0));
    assert_eq!(drgmt_gen(0, 1, 1), Ok(0));
    assert_eq!(drgmt_gen(10, 11, 12), Ok(0));
}
