use vstd::prelude::*;

pub mod arithmetic;
pub mod fibonacci;

verus! {

/// Iteration count of the arithmetic benchmark in a standard run.
pub const ARITHMETIC_ITERATIONS: i64 = 10000000;

/// Fibonacci index computed in a standard run.
pub const FIBONACCI_INDEX: i64 = 35;

} // verus!
