use enviromon::bench::{
    bubble_sort_rust, estimate_binary_size, estimate_stack_usage, fibonacci_rust,
    memory_operations_rust, string_processing_rust, BenchmarkSuite, PerformanceMetrics,
};

#[test]
fn bubble_sort_orders_the_fixture() {
    let mut data = vec![64, 34, 25, 12, 22, 11, 90, 5, 77, 30];
    bubble_sort_rust(&mut data);
    assert_eq!(data, vec![5, 11, 12, 22, 25, 30, 34, 64, 77, 90]);
}

#[test]
fn bubble_sort_handles_edges() {
    let mut empty: Vec<i32> = Vec::new();
    bubble_sort_rust(&mut empty);
    assert!(empty.is_empty());
    let mut one = vec![3];
    bubble_sort_rust(&mut one);
    assert_eq!(one, vec![3]);
    let mut dup = vec![2, -5, 2, 0, -5];
    bubble_sort_rust(&mut dup);
    assert_eq!(dup, vec![-5, -5, 0, 2, 2]);
}

#[test]
fn fibonacci_values() {
    assert_eq!(fibonacci_rust(0), 0);
    assert_eq!(fibonacci_rust(1), 1);
    assert_eq!(fibonacci_rust(10), 55);
    assert_eq!(fibonacci_rust(20), 6765);
}

#[test]
fn string_processing_pads_the_message() {
    let r = string_processing_rust();
    assert_eq!(r.len(), 32);
    assert_eq!(&r[..21], b"Hello, Embedded Rust!");
    assert!(r[21..].iter().all(|&b| b == 0));
}

#[test]
fn memory_operations_fill_doubled_indices() {
    let r = memory_operations_rust();
    assert_eq!(r.len(), 16);
    for (i, &v) in r.iter().enumerate() {
        assert_eq!(v, 2 * i as u32);
    }
}

#[test]
fn suite_collects_all_four_workloads() {
    let mut suite = BenchmarkSuite::new();
    assert_eq!(suite.clock, 0);
    suite.benchmark_sorting();
    suite.benchmark_math();
    suite.benchmark_strings();
    suite.benchmark_memory();
    // Each workload reads the tick clock twice.
    assert_eq!(suite.clock, 8);
    let report = suite.generate_report();
    let expect = |memory_usage: usize| PerformanceMetrics {
        execution_time: 1,
        memory_usage,
        stack_usage: 256,
        binary_size: 2048,
    };
    assert_eq!(report.sorting, expect(40));
    assert_eq!(report.math, expect(4));
    assert_eq!(report.strings, expect(32));
    assert_eq!(report.memory, expect(64));
}

#[test]
fn estimates_are_fixed() {
    assert_eq!(estimate_stack_usage(), 256);
    assert_eq!(estimate_binary_size(), 2048);
}
