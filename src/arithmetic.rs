use vstd::prelude::*;

verus! {

/// Remainder of `x` by `d` rounded toward zero, as Rust's `%` computes it:
/// its sign follows `x`.
pub open spec fn rem_toward_zero(x: int, d: int) -> int {
    if x >= 0 {
        x % d
    } else {
        -((-x) % d)
    }
}

/// One update of the accumulator in 64-bit signed arithmetic that wraps on overflow:
/// `sum = ((sum + i) * i + 3) % 7`.
pub open spec fn arithmetic_step(sum: i64, i: i64) -> i64 {
    rem_toward_zero(sum.wrapping_add(i).wrapping_mul(i).wrapping_add(3) as int, 7) as i64
}

/// The accumulator after the updates for `i` = 0, 1, ..., n - 1, starting from 0.
pub open spec fn arithmetic_spec(n: nat) -> i64
    decreases n,
{
    if n == 0 {
        0
    } else {
        arithmetic_step(arithmetic_spec((n - 1) as nat), (n - 1) as i64)
    }
}

/// Number of updates that a count of iterations asks for: none for a negative count.
pub open spec fn update_count(iterations: i64) -> nat {
    if iterations < 0 {
        0
    } else {
        iterations as nat
    }
}

/// The same recurrence over unbounded integers: `s = ((s + i) * i + 3) mod 7`.
pub open spec fn residue_spec(n: nat) -> int
    decreases n,
{
    if n == 0 {
        0
    } else {
        let i = n - 1;
        ((residue_spec((n - 1) as nat) + i) * i + 3) % 7
    }
}

/// The largest count of iterations for which no intermediate value leaves the `i64` range:
/// for every `i` below it, `(6 + i) * i + 3 <= i64::MAX`.
pub const NO_WRAP_ITERATIONS: i64 = 3037000497;

proof fn lemma_step_fits(s: int, i: int)
    requires
        0 <= s <= 6,
        0 <= i < NO_WRAP_ITERATIONS,
    ensures
        0 <= (s + i) * i,
        (s + i) * i + 3 <= i64::MAX,
{
    assert(0 <= (s + i) * i) by (nonlinear_arith)
        requires
            0 <= s,
            0 <= i,
    ;
    assert((s + i) * i <= (6 + i) * i) by (nonlinear_arith)
        requires
            s <= 6,
            0 <= i,
    ;
    assert((6 + i) * i <= (6 + 3037000496) * 3037000496) by (nonlinear_arith)
        requires
            0 <= i <= 3037000496,
    ;
}

/// Up to `NO_WRAP_ITERATIONS` updates nothing wraps: the accumulator is the exact residue
/// of the recurrence over the integers, and lies in [0, 6].
pub proof fn lemma_no_wraparound(n: nat)
    requires
        n <= NO_WRAP_ITERATIONS,
    ensures
        arithmetic_spec(n) == residue_spec(n),
        0 <= residue_spec(n) <= 6,
    decreases n,
{
    if n > 0 {
        let m = (n - 1) as nat;
        lemma_no_wraparound(m);
        let s = arithmetic_spec(m);
        let i = m as i64;
        lemma_step_fits(s as int, i as int);
        let a = s.wrapping_add(i);
        assert(a == s + i);
        let b = a.wrapping_mul(i);
        assert(b == (s + i) * i);
        let c = b.wrapping_add(3);
        assert(c == (s + i) * i + 3);
    }
}

/// Two runs with the same count of iterations return the same value.
pub proof fn lemma_arithmetic_deterministic(iterations: i64, r1: i64, r2: i64)
    requires
        r1 == arithmetic_spec(update_count(iterations)),
        r2 == arithmetic_spec(update_count(iterations)),
    ensures
        r1 == r2,
{
}

/// Runs the accumulator loop `iterations` times and returns the final value.
pub fn benchmark_arithmetic(iterations: i64) -> (r: i64)
    ensures
        r == arithmetic_spec(update_count(iterations)),
        0 <= iterations <= NO_WRAP_ITERATIONS ==> r == residue_spec(iterations as nat),
        0 <= iterations <= NO_WRAP_ITERATIONS ==> 0 <= r <= 6,
{
    let mut sum: i64 = 0;
    let mut i: i64 = 0;
    while i < iterations
        invariant
            0 <= i,
            iterations >= 0 ==> i <= iterations,
            iterations < 0 ==> i == 0,
            sum == arithmetic_spec(i as nat),
        decreases iterations - i,
    {
        sum = sum.wrapping_add(i).wrapping_mul(i).wrapping_add(3) % 7;
        i = i + 1;
    }
    if 0 <= iterations && iterations <= NO_WRAP_ITERATIONS {
        proof {
            lemma_no_wraparound(iterations as nat);
        }
    }
    sum
}

} // verus!
