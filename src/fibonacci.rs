use vstd::prelude::*;

verus! {

/// The n-th Fibonacci number: fib(0) = 0, fib(1) = 1, fib(n) = fib(n - 1) + fib(n - 2).
pub open spec fn fib_spec(n: nat) -> nat
    decreases n,
{
    if n < 2 {
        n
    } else {
        fib_spec((n - 1) as nat) + fib_spec((n - 2) as nat)
    }
}

/// The largest index whose Fibonacci number fits in an `i64`.
pub const MAX_FIB_INDEX: i64 = 92;

/// The value of fib(92), reached ten steps at a time.
proof fn lemma_fib_92()
    ensures
        fib_spec(92) == 7540113804746346429,
{
    reveal_with_fuel(fib_spec, 11);
    assert(fib_spec(10) == 55 && fib_spec(11) == 89);
    assert(fib_spec(20) == 6765 && fib_spec(21) == 10946);
    assert(fib_spec(30) == 832040 && fib_spec(31) == 1346269);
    assert(fib_spec(40) == 102334155 && fib_spec(41) == 165580141);
    assert(fib_spec(50) == 12586269025 && fib_spec(51) == 20365011074);
    assert(fib_spec(60) == 1548008755920 && fib_spec(61) == 2504730781961);
    assert(fib_spec(70) == 190392490709135 && fib_spec(71) == 308061521170129);
    assert(fib_spec(80) == 23416728348467685 && fib_spec(81) == 37889062373143906);
    assert(fib_spec(90) == 2880067194370816120 && fib_spec(91) == 4660046610375530309);
}

/// Fibonacci numbers never decrease.
pub proof fn lemma_fib_monotonic(m: nat, n: nat)
    requires
        m <= n,
    ensures
        fib_spec(m) <= fib_spec(n),
    decreases n - m,
{
    if m < n {
        lemma_fib_monotonic(m, (n - 1) as nat);
        if n >= 2 {
            assert(fib_spec(n) == fib_spec((n - 1) as nat) + fib_spec((n - 2) as nat));
        }
    }
}

/// Every index from 2 on has the sum of the two before it, after the starting values
/// fib(0) = 0 and fib(1) = 1.
pub proof fn lemma_fib_recurrence(n: nat)
    ensures
        fib_spec(0) == 0,
        fib_spec(1) == 1,
        n >= 2 ==> fib_spec(n) == fib_spec((n - 1) as nat) + fib_spec((n - 2) as nat),
{
}

/// Computes the n-th Fibonacci number by plain double recursion, with no caching.
/// The exponential running time is the workload being measured.
/// A negative index is returned as it is.
pub fn fib(n: i64) -> (r: i64)
    requires
        n <= MAX_FIB_INDEX,
    ensures
        n >= 0 ==> r == fib_spec(n as nat),
        n < 0 ==> r == n,
    decreases n,
{
    if n < 2 {
        n
    } else {
        let a = fib(n - 1);
        let b = fib(n - 2);
        proof {
            lemma_fib_monotonic(n as nat, 92);
            lemma_fib_92();
        }
        a + b
    }
}

} // verus!
