//! Counting helpers: signs, the running product behind `perm`, the falling
//! product behind `comb`, and the entry point `drgmt_gen`.

use vstd::prelude::*;

verus! {

/// n! over the naturals.
pub open spec fn factorial(n: nat) -> nat
    decreases n,
{
    if n == 0 {
        1
    } else {
        n * factorial((n - 1) as nat)
    }
}

/// What `perm` computes: the product 2 · 3 · … · (n − 1).
/// That is (n − 1)! for n ≥ 1, and 1 for n = 0.
pub open spec fn perm_value(n: nat) -> nat {
    if n <= 1 {
        1
    } else {
        factorial((n - 1) as nat)
    }
}

/// The falling product n · (n − 1) · … · (n − k + 1) of k descending factors.
pub open spec fn falling(n: int, k: nat) -> int
    decreases k,
{
    if k == 0 {
        1
    } else {
        falling(n, (k - 1) as nat) * (n - (k - 1))
    }
}

/// What `comb` computes: the falling product of `k` factors from `n`,
/// divided (rounding down) by `k` itself.
pub open spec fn comb_value(n: nat, k: nat) -> int {
    falling(n as int, k) / (k as int)
}

/// The number of factors of `comb(n, k)`'s product that are nonzero
/// (the product of more factors than that is zero).
pub open spec fn nonzero_factors(n: nat, k: nat) -> nat {
    if k <= n {
        k
    } else {
        n
    }
}

/// What `pos_or_neg_cond` computes: `n` read as an `i32`, negated when the
/// condition fails.
pub open spec fn signed_value(n: usize, condition: bool) -> int {
    if condition {
        (n as i32) as int
    } else {
        -((n as i32) as int)
    }
}

pub proof fn lemma_factorial_positive(n: nat)
    ensures
        factorial(n) >= 1,
    decreases n,
{
    if n > 0 {
        lemma_factorial_positive((n - 1) as nat);
        assert(n * factorial((n - 1) as nat) >= 1) by (nonlinear_arith)
            requires
                n >= 1,
                factorial((n - 1) as nat) >= 1,
        ;
    }
}

/// The factorial never decreases.
pub proof fn lemma_factorial_monotone(i: nat, j: nat)
    requires
        i <= j,
    ensures
        factorial(i) <= factorial(j),
    decreases j - i,
{
    if i < j {
        lemma_factorial_monotone(i, (j - 1) as nat);
        lemma_factorial_positive((j - 1) as nat);
        assert(factorial((j - 1) as nat) <= j * factorial((j - 1) as nat)) by (nonlinear_arith)
            requires
                j >= 1,
                factorial((j - 1) as nat) >= 1,
        ;
    }
}

/// While every factor is at least one, the falling product is positive and
/// grows with each factor taken.
pub proof fn lemma_falling_monotone(n: nat, i: nat, j: nat)
    requires
        i <= j <= n,
    ensures
        1 <= falling(n as int, i) <= falling(n as int, j),
    decreases j,
{
    if j == 0 {
    } else if i == j {
        lemma_falling_monotone(n, (i - 1) as nat, (j - 1) as nat);
        assert(falling(n as int, (j - 1) as nat) * (n - (j - 1)) >= 1) by (nonlinear_arith)
            requires
                falling(n as int, (j - 1) as nat) >= 1,
                n - (j - 1) >= 1,
        ;
    } else {
        lemma_falling_monotone(n, i, (j - 1) as nat);
        let p = falling(n as int, (j - 1) as nat);
        assert(p <= p * (n - (j - 1))) by (nonlinear_arith)
            requires
                p >= 1,
                n - (j - 1) >= 1,
        ;
    }
}

/// `n` as an `i32` (the cast keeps the low 32 bits), negated unless
/// `condition` holds.
pub fn pos_or_neg_cond(n: usize, condition: bool) -> (result: i32)
    requires
        !condition ==> (n as i32) != i32::MIN,
    ensures
        result as int == signed_value(n, condition),
{
    match condition {
        true => n as i32,
        false => -(n as i32),
    }
}

/// The running product 2 · 3 · … · (n − 1), which is (n − 1)! (and 1 for n ≤ 1).
pub fn perm(n: usize) -> (result: u128)
    requires
        perm_value(n as nat) <= u128::MAX,
    ensures
        result == perm_value(n as nat),
{
    if n <= 1 {
        return 1;
    }
    let mut acc: u128 = 1;
    let mut i: usize = 2;
    assert(factorial(0) == 1);
    assert(factorial(1) == 1);
    while i < n
        invariant
            2 <= i <= n,
            acc == factorial((i - 1) as nat),
            factorial((n - 1) as nat) <= u128::MAX,
        decreases n - i,
    {
        proof {
            lemma_factorial_monotone(i as nat, (n - 1) as nat);
        }
        assert(factorial(i as nat) == i * factorial((i - 1) as nat));
        assert(acc * i == factorial(i as nat)) by (nonlinear_arith)
            requires
                acc == factorial((i - 1) as nat),
                factorial(i as nat) == i * factorial((i - 1) as nat),
        ;
        acc = acc * (i as u128);
        i = i + 1;
    }
    acc
}

/// The falling product n · (n − 1) · … · (n − k + 1), divided by `k`.
///
/// `k` must be at least one (the division) and at most `n + 1` (each factor
/// `n − i` is taken in `usize`), and no partial product may overflow.
pub fn comb(n: usize, k: usize) -> (result: u128)
    requires
        1 <= k <= n + 1,
        falling(n as int, nonzero_factors(n as nat, k as nat)) <= u128::MAX,
    ensures
        result == comb_value(n as nat, k as nat),
{
    let mut acc: u128 = 1;
    let mut i: usize = 0;
    while i < k
        invariant
            i <= k <= n + 1,
            acc == falling(n as int, i as nat),
            falling(n as int, nonzero_factors(n as nat, k as nat)) <= u128::MAX,
        decreases k - i,
    {
        assert(falling(n as int, (i + 1) as nat) == falling(n as int, i as nat) * (n - i));
        proof {
            if i + 1 <= n {
                lemma_falling_monotone(n as nat, (i + 1) as nat, nonzero_factors(n as nat, k as nat));
            }
        }
        assert(acc * (n - i) == falling(n as int, (i + 1) as nat) <= u128::MAX) by {
            if i + 1 > n {
                assert(n - i == 0);
            }
        }
        acc = acc * ((n - i) as u128);
        i = i + 1;
    }
    acc / (k as u128)
}

/// The generalised derangement count of `n` items with `r` marked and `k` of
/// them fixed, on the inputs where it is defined: more marked items than
/// items (`r > n`), or more fixed items than marked ones (`k > r`). There the
/// count is zero and the result is `Ok(0)`.
pub fn drgmt_gen(n: usize, r: usize, k: usize) -> (result: Result<u128, &'static str>)
    requires
        r > n || k > r,
    ensures
        result == Ok::<u128, &'static str>(0),
{
    Ok(0)
}


/// Each step of the running product multiplies by the last index:
/// `perm(n + 1) == n * perm(n)` for n ≥ 1.
pub proof fn lemma_perm_step(n: nat)
    requires
        n >= 1,
    ensures
        perm_value(n + 1) == n * perm_value(n),
{
    assert(factorial(0) == 1);
}

/// With one factor `comb(n, 1)` is `n`; with two it is the number of pairs
/// n(n − 1)/2; with `n + 1` factors the product reaches zero.
pub proof fn lemma_comb_small(n: nat)
    ensures
        comb_value(n, 1) == n,
        comb_value(n, 2) == n * (n - 1) / 2,
        comb_value(n, n + 1) == 0,
{
    assert(falling(n as int, 0) == 1);
    assert(falling(n as int, 1) == n);
    assert(falling(n as int, 2) == n * (n - 1));
    lemma_falling_reaches_zero(n);
}

/// Taking more than `n` factors from `n` includes the factor zero.
pub proof fn lemma_falling_reaches_zero(n: nat)
    ensures
        falling(n as int, n + 1) == 0,
{
    assert(falling(n as int, (n + 1) as nat) == falling(n as int, n) * (n - n));
}

} // verus!
