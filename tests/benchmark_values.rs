use benchmarks::arithmetic::benchmark_arithmetic;
use benchmarks::fibonacci::fib;
use benchmarks::{ARITHMETIC_ITERATIONS, FIBONACCI_INDEX};

#[test]
fn arithmetic_zero_iterations_is_zero() {
    assert_eq!(benchmark_arithmetic(0), 0);
}

#[test]
fn arithmetic_one_iteration_is_three() {
    assert_eq!(benchmark_arithmetic(1), ((0 + 0) * 0 + 3) % 7);
    assert_eq!(benchmark_arithmetic(1), 3);
}

#[test]
fn arithmetic_ten_iterations_oracle() {
    // i = 0..9 gives 3, 0, 0, 5, 4, 6, 5, 3, 0, 0
    assert_eq!(benchmark_arithmetic(10), 0);
}

#[test]
fn arithmetic_matches_direct_simulation() {
    for n in 0..200i64 {
        let mut sum: i64 = 0;
        for i in 0..n {
            sum = ((sum + i) * i + 3) % 7;
        }
        assert_eq!(benchmark_arithmetic(n), sum, "n = {}", n);
    }
}

#[test]
fn arithmetic_small_counts() {
    let expected = [0, 3, 0, 0, 5, 4, 6, 5, 3, 0, 0, 5, 4, 6, 5];
    for (n, e) in expected.iter().enumerate() {
        assert_eq!(benchmark_arithmetic(n as i64), *e);
    }
    assert_eq!(benchmark_arithmetic(100), 0);
    assert_eq!(benchmark_arithmetic(1000), 6);
}

#[test]
fn arithmetic_is_deterministic() {
    for n in [0i64, 1, 7, 10, 12345] {
        assert_eq!(benchmark_arithmetic(n), benchmark_arithmetic(n));
    }
}

#[test]
fn arithmetic_negative_count_runs_no_update() {
    assert_eq!(benchmark_arithmetic(-1), 0);
    assert_eq!(benchmark_arithmetic(i64::MIN), 0);
}

#[test]
fn arithmetic_result_stays_in_range() {
    for n in 0..500i64 {
        let r = benchmark_arithmetic(n);
        assert!((0..=6).contains(&r));
    }
}

#[test]
fn arithmetic_standard_run_result() {
    assert_eq!(benchmark_arithmetic(ARITHMETIC_ITERATIONS), 0);
}

#[test]
fn fib_base_cases() {
    assert_eq!(fib(0), 0);
    assert_eq!(fib(1), 1);
}

#[test]
fn fib_oracle_values() {
    assert_eq!(fib(10), 55);
    assert_eq!(fib(20), 6765);
}

#[test]
fn fib_recurrence_holds() {
    for n in 2..=25i64 {
        assert_eq!(fib(n), fib(n - 1) + fib(n - 2));
    }
}

#[test]
fn fib_negative_index_is_returned() {
    assert_eq!(fib(-3), -3);
}

#[test]
fn fib_standard_run_result() {
    assert_eq!(fib(FIBONACCI_INDEX), 9227465);
}
