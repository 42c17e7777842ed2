//! Microbenchmark suite: small fixed workloads (sorting, arithmetic,
//! byte shuffling) run under a simulated tick clock, with the measured
//! figures collected into a report.
//!
//! The tick clock stands in for a platform timer: it advances by one on
//! every read, so each measured workload reports one tick of execution
//! time; memory figures are the byte sizes of the workloads' results,
//! and stack and binary figures are fixed engineering estimates.

use vstd::prelude::*;
use vstd::seq_lib::to_multiset_update;
use vstd::seq_lib::group_to_multiset_ensures;

verus! {

/// The figures one benchmark run produces.
#[derive(Clone, Copy, Debug, PartialEq, Eq, Structural)]
pub struct PerformanceMetrics {
    pub execution_time: u32,
    pub memory_usage: usize,
    pub stack_usage: usize,
    pub binary_size: usize,
}

/// Figures for the four workloads, in a fixed order.
#[derive(Clone, Copy, Debug, PartialEq, Eq, Structural)]
pub struct BenchmarkReport {
    pub sorting: PerformanceMetrics,
    pub math: PerformanceMetrics,
    pub strings: PerformanceMetrics,
    pub memory: PerformanceMetrics,
}

/// A sequence is sorted in non-decreasing order.
pub open spec fn sorted(s: Seq<i32>) -> bool {
    forall|a: int, b: int| 0 <= a <= b < s.len() ==> s[a] <= s[b]
}

/// The simulated tick clock's successor, wrapping at `2^32`.
pub open spec fn next_tick(c: int) -> int {
    if c == 0xFFFF_FFFF {
        0
    } else {
        c + 1
    }
}

/// The `n`-th Fibonacci number.
pub open spec fn fib(n: nat) -> nat
    decreases n,
{
    if n == 0 {
        0
    } else if n == 1 {
        1
    } else {
        fib((n - 1) as nat) + fib((n - 2) as nat)
    }
}

/// In-place bubble sort: the classic quadratic exchange sort, kept as
/// the sorting workload. The result is the same collection of values,
/// in non-decreasing order.
pub fn bubble_sort_rust(arr: &mut Vec<i32>)
    ensures
        final(arr)@.len() == old(arr)@.len(),
        sorted(final(arr)@),
        final(arr)@.to_multiset() == old(arr)@.to_multiset(),
{
    let n: usize = arr.len();
    if n <= 1 {
        return ;
    }
    let mut i1: usize = 0;
    while i1 < n - 1
        invariant
            arr@.len() == n,
            2 <= n,
            i1 <= n - 1,
            arr@.to_multiset() == old(arr)@.to_multiset(),
            forall|a: int, b: int| n - i1 <= a <= b < n ==> arr@[a] <= arr@[b],
            forall|a: int, b: int| 0 <= a < n - i1 <= b < n ==> arr@[a] <= arr@[b],
        decreases n - i1,
    {
        let mut j: usize = 0;
        while j < n - i1 - 1
            invariant
                arr@.len() == n,
                2 <= n,
                i1 < n - 1,
                j <= n - i1 - 1,
                arr@.to_multiset() == old(arr)@.to_multiset(),
                forall|a: int, b: int| n - i1 <= a <= b < n ==> arr@[a] <= arr@[b],
                forall|a: int, b: int| 0 <= a < n - i1 <= b < n ==> arr@[a] <= arr@[b],
                forall|t: int| 0 <= t <= j ==> arr@[t] <= arr@[j as int],
            decreases n - i1 - 1 - j,
        {
            if arr[j] > arr[j + 1] {
                let ghost before = arr@;
                let low = arr[j];
                let high = arr[j + 1];
                arr.set(j, high);
                arr.set(j + 1, low);
                proof {
                    broadcast use to_multiset_update;
                    broadcast use group_to_multiset_ensures;

                    assert(arr@ == before.update(j as int, high).update(j + 1, low));
                    assert(before.to_multiset().contains(low));
                    assert(arr@.to_multiset() =~= before.to_multiset());
                }
            }
            j = j + 1;
        }
        i1 = i1 + 1;
    }
}

/// The arithmetic workload: the naively recursive Fibonacci function.
pub fn fibonacci_rust(n: u32) -> (r: u32)
    requires
        fib(n as nat) <= u32::MAX,
    ensures
        r == fib(n as nat),
    decreases n,
{
    match n {
        0 => 0,
        1 => 1,
        _ => fibonacci_rust(n - 1) + fibonacci_rust(n - 2),
    }
}

/// The byte sequence of the fixed benchmark message.
pub open spec fn bench_message() -> Seq<u8> {
    seq![
        72u8, 101u8, 108u8, 108u8, 111u8, 44u8, 32u8, 69u8, 109u8, 98u8, 101u8, 100u8, 100u8,
        101u8, 100u8, 32u8, 82u8, 117u8, 115u8, 116u8, 33u8,
    ]
}

/// The string workload: the fixed message copied into a 32-byte buffer,
/// zero-padded at the tail.
pub fn string_processing_rust() -> (r: Vec<u8>)
    ensures
        r@.len() == 32,
        r@.subrange(0, 21) == bench_message(),
        forall|i: int| 21 <= i < 32 ==> r@[i] == 0u8,
{
    let mut result: Vec<u8> = Vec::new();
    result.push(72);
    result.push(101);
    result.push(108);
    result.push(108);
    result.push(111);
    result.push(44);
    result.push(32);
    result.push(69);
    result.push(109);
    result.push(98);
    result.push(101);
    result.push(100);
    result.push(100);
    result.push(101);
    result.push(100);
    result.push(32);
    result.push(82);
    result.push(117);
    result.push(115);
    result.push(116);
    result.push(33);
    proof {
        assert(result@ =~= bench_message());
    }
    while result.len() < 32
        invariant
            21 <= result@.len() <= 32,
            result@.subrange(0, 21) == bench_message(),
            forall|i: int| 21 <= i < result@.len() ==> result@[i] == 0u8,
        decreases 32 - result@.len(),
    {
        let ghost before = result@;
        result.push(0);
        proof {
            assert(result@.subrange(0, 21) =~= before.subrange(0, 21));
        }
    }
    result
}

/// The memory workload: a 16-word buffer filled with doubled indices.
pub fn memory_operations_rust() -> (r: Vec<u32>)
    ensures
        r@.len() == 16,
        forall|i: int| 0 <= i < 16 ==> r@[i] == 2 * i,
{
    let mut buffer: Vec<u32> = Vec::new();
    let mut i: usize = 0;
    while i < 16
        invariant
            buffer@.len() == i,
            i <= 16,
            forall|j: int| 0 <= j < i ==> buffer@[j] == 2 * j,
        decreases 16 - i,
    {
        buffer.push((i as u32) * 2);
        i = i + 1;
    }
    buffer
}

/// Runs the workloads under the simulated tick clock and collects
/// their figures, one result slot per workload.
pub struct BenchmarkSuite {
    pub results: Vec<PerformanceMetrics>,
    pub clock: u32,
}

impl BenchmarkSuite {
    /// One result slot per workload.
    pub open spec fn wf(self) -> bool {
        self.results@.len() == 4
    }

    /// A suite with zeroed figures and the tick clock at zero.
    pub fn new() -> (s: Self)
        ensures
            s.wf(),
            s.clock == 0,
            forall|i: int|
                0 <= i < 4 ==> s.results@[i] == (PerformanceMetrics {
                    execution_time: 0,
                    memory_usage: 0,
                    stack_usage: 0,
                    binary_size: 0,
                }),
    {
        let zero = PerformanceMetrics {
            execution_time: 0,
            memory_usage: 0,
            stack_usage: 0,
            binary_size: 0,
        };
        let mut results: Vec<PerformanceMetrics> = Vec::new();
        results.push(zero);
        results.push(zero);
        results.push(zero);
        results.push(zero);
        BenchmarkSuite { results, clock: 0 }
    }

    /// Reads the tick clock, advancing it by one with wraparound.
    fn tick(&mut self) -> (t: u32)
        ensures
            t == old(self).clock,
            final(self).clock == next_tick(old(self).clock as int),
            final(self).results == old(self).results,
    {
        let t = self.clock;
        self.clock = if t == 0xFFFF_FFFF {
            0
        } else {
            t + 1
        };
        t
    }

    /// Ticks measured between two clock reads, wraparound-correct; with
    /// this clock, always exactly one.
    fn measure(start: u32, end: u32) -> (d: u32)
        requires
            end == next_tick(start as int),
        ensures
            d == 1,
    {
        if end >= start {
            end - start
        } else {
            end + (0xFFFF_FFFF - start) + 1
        }
    }

    /// Sorts a fixed ten-element array and records one tick of execution
    /// time and the array's 40 bytes in the first result slot.
    pub fn benchmark_sorting(&mut self)
        requires
            old(self).wf(),
        ensures
            final(self).wf(),
            final(self).results@ == old(self).results@.update(
                0,
                PerformanceMetrics {
                    execution_time: 1,
                    memory_usage: 40,
                    stack_usage: 256,
                    binary_size: 2048,
                },
            ),
    {
        let mut test_data: Vec<i32> = Vec::new();
        test_data.push(64);
        test_data.push(34);
        test_data.push(25);
        test_data.push(12);
        test_data.push(22);
        test_data.push(11);
        test_data.push(90);
        test_data.push(5);
        test_data.push(77);
        test_data.push(30);
        let start = self.tick();
        bubble_sort_rust(&mut test_data);
        let end = self.tick();
        let metrics = PerformanceMetrics {
            execution_time: Self::measure(start, end),
            memory_usage: test_data.len() * 4,
            stack_usage: estimate_stack_usage(),
            binary_size: estimate_binary_size(),
        };
        self.results.set(0, metrics);
    }

    /// Computes the twentieth Fibonacci number and records one tick and
    /// the result's 4 bytes in the second result slot.
    pub fn benchmark_math(&mut self)
        requires
            old(self).wf(),
        ensures
            final(self).wf(),
            final(self).results@ == old(self).results@.update(
                1,
                PerformanceMetrics {
                    execution_time: 1,
                    memory_usage: 4,
                    stack_usage: 256,
                    binary_size: 2048,
                },
            ),
    {
        proof {
            lemma_fib_20_fits();
        }
        let start = self.tick();
        let _result = fibonacci_rust(20);
        let end = self.tick();
        let metrics = PerformanceMetrics {
            execution_time: Self::measure(start, end),
            memory_usage: 4,
            stack_usage: estimate_stack_usage(),
            binary_size: estimate_binary_size(),
        };
        self.results.set(1, metrics);
    }

    /// Copies the fixed message into its buffer and records one tick
    /// and the buffer's 32 bytes in the third result slot.
    pub fn benchmark_strings(&mut self)
        requires
            old(self).wf(),
        ensures
            final(self).wf(),
            final(self).results@ == old(self).results@.update(
                2,
                PerformanceMetrics {
                    execution_time: 1,
                    memory_usage: 32,
                    stack_usage: 256,
                    binary_size: 2048,
                },
            ),
    {
        let start = self.tick();
        let result = string_processing_rust();
        let end = self.tick();
        let metrics = PerformanceMetrics {
            execution_time: Self::measure(start, end),
            memory_usage: result.len(),
            stack_usage: estimate_stack_usage(),
            binary_size: estimate_binary_size(),
        };
        self.results.set(2, metrics);
    }

    /// Fills the 16-word buffer and records one tick and the buffer's
    /// 64 bytes in the fourth result slot.
    pub fn benchmark_memory(&mut self)
        requires
            old(self).wf(),
        ensures
            final(self).wf(),
            final(self).results@ == old(self).results@.update(
                3,
                PerformanceMetrics {
                    execution_time: 1,
                    memory_usage: 64,
                    stack_usage: 256,
                    binary_size: 2048,
                },
            ),
    {
        let start = self.tick();
        let result = memory_operations_rust();
        let end = self.tick();
        let metrics = PerformanceMetrics {
            execution_time: Self::measure(start, end),
            memory_usage: result.len() * 4,
            stack_usage: estimate_stack_usage(),
            binary_size: estimate_binary_size(),
        };
        self.results.set(3, metrics);
    }

    /// The collected figures, one field per workload in suite order.
    pub fn generate_report(&self) -> (r: BenchmarkReport)
        requires
            self.wf(),
        ensures
            r.sorting == self.results@[0],
            r.math == self.results@[1],
            r.strings == self.results@[2],
            r.memory == self.results@[3],
    {
        BenchmarkReport {
            sorting: self.results[0],
            math: self.results[1],
            strings: self.results[2],
            memory: self.results[3],
        }
    }
}

/// The twentieth Fibonacci number is 6765, well inside `u32`.
proof fn lemma_fib_20_fits()
    ensures
        fib(20) == 6765,
{
    assert(fib(0) == 0);
    assert(fib(1) == 1);
    assert(fib(2) == 1);
    assert(fib(3) == 2);
    assert(fib(4) == 3);
    assert(fib(5) == 5);
    assert(fib(6) == 8);
    assert(fib(7) == 13);
    assert(fib(8) == 21);
    assert(fib(9) == 34);
    assert(fib(10) == 55);
    assert(fib(11) == 89);
    assert(fib(12) == 144);
    assert(fib(13) == 233);
    assert(fib(14) == 377);
    assert(fib(15) == 610);
    assert(fib(16) == 987);
    assert(fib(17) == 1597);
    assert(fib(18) == 2584);
    assert(fib(19) == 4181);
    assert(fib(20) == 6765);
}

/// Fixed engineering estimate of the workloads' stack footprint, in
/// bytes; a real deployment would take it from a stack analysis tool.
pub fn estimate_stack_usage() -> (r: usize)
    ensures
        r == 256,
{
    256
}

/// Fixed engineering estimate of the binary footprint, in bytes; a real
/// deployment would take it from the linker map.
pub fn estimate_binary_size() -> (r: usize)
    ensures
        r == 2048,
{
    2048
}

} // verus!
