//! Factorials on machine integers, computed by three loops of different shape
//! that all meet the same contract.

use vstd::prelude::*;

verus! {

/// The factorial of `n`: the product `n * (n - 1) * ... * 1`, with `0! = 1`.
pub open spec fn factorial_of(n: nat) -> nat
    decreases n,
{
    if n <= 1 {
        1
    } else {
        n * factorial_of((n - 1) as nat)
    }
}

/// Factorials are never zero.
pub proof fn lemma_factorial_positive(n: nat)
    ensures
        factorial_of(n) >= 1,
    decreases n,
{
    if n > 1 {
        lemma_factorial_positive((n - 1) as nat);
        assert(n * factorial_of((n - 1) as nat) >= 1) by (nonlinear_arith)
            requires
                n >= 1,
                factorial_of((n - 1) as nat) >= 1,
        ;
    }
}

/// A larger argument never has a smaller factorial.
pub proof fn lemma_factorial_monotonic(m: nat, n: nat)
    requires
        m <= n,
    ensures
        factorial_of(m) <= factorial_of(n),
    decreases n,
{
    if m < n {
        lemma_factorial_positive(m);
        if n > 1 {
            lemma_factorial_monotonic(m, (n - 1) as nat);
            assert(factorial_of((n - 1) as nat) <= n * factorial_of((n - 1) as nat))
                by (nonlinear_arith)
                requires
                    n >= 1,
            ;
        }
    }
}

/// Every factorial up to 12! fits in 32 bits, and so in a `usize`.
pub proof fn lemma_factorial_small(n: nat)
    requires
        n <= 12,
    ensures
        factorial_of(n) <= 479_001_600,
        factorial_of(n) <= usize::MAX,
{
    lemma_factorial_monotonic(n, 12);
    reveal_with_fuel(factorial_of, 13);
}

/// With `acc` the product of the factors already taken and `n` the next one,
/// taking `n` keeps `acc * n!` unchanged and cannot pass that total.
proof fn lemma_take_factor(acc: nat, n: nat)
    requires
        n > 1,
    ensures
        (acc * n) * factorial_of((n - 1) as nat) == acc * factorial_of(n),
        acc * n <= acc * factorial_of(n),
{
    let rest = factorial_of((n - 1) as nat);
    lemma_factorial_positive((n - 1) as nat);
    assert((acc * n) * rest == acc * (n * rest)) by (nonlinear_arith);
    assert(acc * n <= (acc * n) * rest) by (nonlinear_arith)
        requires
            rest >= 1,
    ;
}

/// Once no factor above 1 is left, the product taken so far is the total.
proof fn lemma_no_factor_left(acc: nat, n: nat)
    requires
        n <= 1,
    ensures
        acc * factorial_of(n) == acc,
{
    assert(acc * 1 == acc) by (nonlinear_arith);
}

/// Computes `n!`, leaving the loop with a plain `break`.
pub fn factorial(n: usize) -> (result: usize)
    requires
        factorial_of(n as nat) <= usize::MAX,
    ensures
        result == factorial_of(n as nat),
{
    let mut left: usize = n;
    let mut result: usize = 1;
    loop
        invariant
            result * factorial_of(left as nat) == factorial_of(n as nat),
            factorial_of(n as nat) <= usize::MAX,
        ensures
            result == factorial_of(n as nat),
        decreases left,
    {
        if left <= 1 {
            proof {
                lemma_no_factor_left(result as nat, left as nat);
            }
            break;
        } else {
            proof {
                lemma_take_factor(result as nat, left as nat);
            }
            result = result * left;
            left = left - 1;
        }
    }
    result
}

/// Computes `n!`, binding the value the loop ends with to a fresh name.
pub fn factorial2(n: usize) -> (result: usize)
    requires
        factorial_of(n as nat) <= usize::MAX,
    ensures
        result == factorial_of(n as nat),
{
    let mut left: usize = n;
    let mut temp: usize = 1;
    loop
        invariant
            temp * factorial_of(left as nat) == factorial_of(n as nat),
            factorial_of(n as nat) <= usize::MAX,
        ensures
            temp == factorial_of(n as nat),
        decreases left,
    {
        if left <= 1 {
            proof {
                lemma_no_factor_left(temp as nat, left as nat);
            }
            break;
        } else {
            proof {
                lemma_take_factor(temp as nat, left as nat);
            }
            temp = temp * left;
            left = left - 1;
        }
    }
    let result = temp;
    result
}

/// Computes `n!`, returning straight out of the loop.
pub fn factorial3(n: usize) -> (result: usize)
    requires
        factorial_of(n as nat) <= usize::MAX,
    ensures
        result == factorial_of(n as nat),
{
    let mut left: usize = n;
    let mut temp: usize = 1;
    loop
        invariant
            temp * factorial_of(left as nat) == factorial_of(n as nat),
            factorial_of(n as nat) <= usize::MAX,
        decreases left,
    {
        if left <= 1 {
            proof {
                lemma_no_factor_left(temp as nat, left as nat);
            }
            return temp;
        } else {
            proof {
                lemma_take_factor(temp as nat, left as nat);
            }
            temp = temp * left;
            left = left - 1;
        }
    }
}

/// Computes `n!` for any `n`: `Some(n!)` exactly when `n!` fits in a `usize`,
/// `None` otherwise.
pub fn checked_factorial(n: usize) -> (result: Option<usize>)
    ensures
        match result {
            Some(value) => value == factorial_of(n as nat),
            None => factorial_of(n as nat) > usize::MAX,
        },
{
    let mut left: usize = n;
    let mut temp: usize = 1;
    while left > 1
        invariant
            temp * factorial_of(left as nat) == factorial_of(n as nat),
        decreases left,
    {
        proof {
            lemma_take_factor(temp as nat, left as nat);
        }
        match temp.checked_mul(left) {
            Some(product) => {
                temp = product;
            },
            None => {
                return None;
            },
        }
        left = left - 1;
    }
    proof {
        lemma_no_factor_left(temp as nat, left as nat);
    }
    Some(temp)
}

} // verus!
