//! The factorial of a number, computed as the product of `1..=n`.
use vstd::prelude::*;

verus! {

/// n! = 1 * 2 * ... * n, with 0! = 1.
pub open spec fn spec_factorial(n: nat) -> nat
    decreases n,
{
    if n == 0 {
        1
    } else {
        n * spec_factorial((n - 1) as nat)
    }
}

/// Every factorial is at least one.
pub proof fn lemma_factorial_positive(n: nat)
    ensures
        spec_factorial(n) >= 1,
    decreases n,
{
    if n > 0 {
        lemma_factorial_positive((n - 1) as nat);
        let f = spec_factorial((n - 1) as nat);
        assert(n * f >= 1) by (nonlinear_arith)
            requires
                n >= 1,
                f >= 1,
        ;
    }
}

/// The factorial grows with its argument.
pub proof fn lemma_factorial_monotone(i: nat, j: nat)
    requires
        i <= j,
    ensures
        spec_factorial(i) <= spec_factorial(j),
    decreases j - i,
{
    if i < j {
        lemma_factorial_monotone(i, (j - 1) as nat);
        lemma_factorial_positive((j - 1) as nat);
        let f = spec_factorial((j - 1) as nat);
        assert(f <= j * f) by (nonlinear_arith)
            requires
                j >= 1,
                f >= 1,
        ;
    }
}

/// Returns the factorial of `num`, the product of the numbers `1..=num`.
pub fn factorial(num: u64) -> (r: u64)
    requires
        spec_factorial(num as nat) <= u64::MAX,
    ensures
        r == spec_factorial(num as nat),
{
    let mut acc: u64 = 1;
    let mut i: u64 = 0;
    while i < num
        invariant
            i <= num,
            acc == spec_factorial(i as nat),
            spec_factorial(num as nat) <= u64::MAX,
        decreases num - i,
    {
        i = i + 1;
        proof {
            lemma_factorial_monotone(i as nat, num as nat);
            assert(spec_factorial(i as nat) == i * spec_factorial((i - 1) as nat));
            assert(acc * i == spec_factorial(i as nat)) by (nonlinear_arith)
                requires
                    acc == spec_factorial((i - 1) as nat),
                    spec_factorial(i as nat) == i * spec_factorial((i - 1) as nat),
            ;
        }
        acc = acc * i;
    }
    acc
}

} // verus!
