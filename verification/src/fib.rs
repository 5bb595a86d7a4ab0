//! The CPU-bound benchmark kernel: the naive recursive Fibonacci function.
use vstd::prelude::*;

verus! {

/// The Fibonacci numbers: `fib(0) = 0`, `fib(1) = 1`, `fib(n) = fib(n - 1) + fib(n - 2)`.
pub open spec fn fib(n: nat) -> nat
    decreases n,
{
    if n <= 1 {
        n
    } else {
        fib((n - 1) as nat) + fib((n - 2) as nat)
    }
}

/// `fib` never decreases.
pub proof fn lemma_fib_monotonic(i: nat, j: nat)
    requires
        i <= j,
    ensures
        fib(i) <= fib(j),
    decreases j - i,
{
    if i < j {
        lemma_fib_monotonic(i, (j - 1) as nat);
    }
}

/// Each Fibonacci number past the first two is the sum of the two before it,
/// with no cap on how large it grows.
pub proof fn law_fib_recurrence(n: nat)
    requires
        n >= 2,
    ensures
        fib(n) == fib((n - 1) as nat) + fib((n - 2) as nat),
{
}

/// From the second one on, every Fibonacci number is strictly larger than
/// the one before it.
pub proof fn law_fib_strictly_increasing(n: nat)
    requires
        n >= 2,
    ensures
        fib(n) < fib(n + 1),
{
    lemma_fib_monotonic(1, (n - 1) as nat);
    assert(fib(1) == 1);
    assert(fib(n + 1) == fib(n) + fib((n - 1) as nat));
}

/// Computes the `n`-th Fibonacci number by the naive doubly recursive definition.
///
/// The sum overflows, and so panics, once the result leaves `u64`; such
/// inputs are excluded.
pub fn fibonacci(n: u64) -> (r: u64)
    requires
        fib(n as nat) <= u64::MAX,
    ensures
        r == fib(n as nat),
    decreases n,
{
    if n <= 1 {
        return n;
    }
    proof {
        lemma_fib_monotonic((n - 1) as nat, n as nat);
        lemma_fib_monotonic((n - 2) as nat, n as nat);
    }
    fibonacci(n - 1) + fibonacci(n - 2)
}

} // verus!
