use emu_host::benchmark::{nominal_cycles, BenchmarkReport, BenchmarkRun, BENCH_NOMINAL_SECONDS};
use emu_host::pacer::TARGET_CLOCK_HZ;

fn run_with_even_steps(target: u64, cycles: u32) -> BenchmarkRun {
    let mut run = BenchmarkRun::new(target);
    while !run.is_complete() {
        run.record_step(cycles);
    }
    run
}

#[test]
fn nominal_workload_is_twenty_seconds_of_cycles() {
    assert_eq!(BENCH_NOMINAL_SECONDS, 20);
    assert_eq!(nominal_cycles(BENCH_NOMINAL_SECONDS, TARGET_CLOCK_HZ), Some(120_000_000));
}

#[test]
fn nominal_workload_beyond_the_counter_is_refused() {
    assert_eq!(nominal_cycles(u64::MAX, 2), None);
    assert_eq!(nominal_cycles(1 << 32, 1 << 32), None);
    assert_eq!(nominal_cycles((1 << 32) - 1, 1 << 32), Some(((1u64 << 32) - 1) << 32));
    assert_eq!(nominal_cycles(0, u64::MAX), Some(0));
}

#[test]
fn benchmark_with_even_steps_takes_exactly_ten_calls() {
    let mut run = BenchmarkRun::new(10_000);
    let mut calls = 0;
    loop {
        calls += 1;
        if run.record_step(1000) {
            break;
        }
    }
    assert_eq!(calls, 10);
    assert_eq!(run.calls, 10);
    assert_eq!(run.total, 10_000);
    assert!(run.total >= run.target);
}

#[test]
fn benchmark_may_overshoot_by_less_than_one_step() {
    let run = run_with_even_steps(10_000, 3_000);
    assert_eq!(run.calls, 4);
    assert_eq!(run.total, 12_000);
    assert!(run.total - 3_000 < run.target);
}

#[test]
fn benchmark_is_not_complete_before_the_target() {
    let mut run = BenchmarkRun::new(10_000);
    for _ in 0..9 {
        assert!(!run.is_complete());
        assert!(!run.record_step(1000));
    }
    assert_eq!(run.total, 9_000);
    assert!(!run.is_complete());
    assert!(!run.record_step(999));
    assert!(run.record_step(1));
    assert_eq!((run.total, run.calls), (10_000, 11));
    assert!(!BenchmarkRun { target: 10_000, total: 9_999, calls: 7 }.is_complete());
    assert!(BenchmarkRun { target: 10_000, total: 10_000, calls: 7 }.is_complete());
}

#[test]
fn benchmark_with_uneven_steps_adds_them_up() {
    let mut run = BenchmarkRun::new(20);
    assert!(!run.record_step(7));
    assert!(!run.record_step(0));
    assert!(!run.record_step(12));
    assert_eq!((run.total, run.calls), (19, 3));
    assert!(run.record_step(2));
    assert_eq!((run.total, run.calls), (21, 4));
}

#[test]
fn complete_benchmark_takes_no_further_step() {
    let mut run = run_with_even_steps(5, 5);
    assert_eq!((run.total, run.calls), (5, 1));
    assert!(run.record_step(100));
    assert_eq!((run.total, run.calls), (5, 1));
}

#[test]
fn benchmark_towards_nothing_is_complete_at_once() {
    let mut run = BenchmarkRun::new(0);
    assert!(run.is_complete());
    assert!(run.record_step(9));
    assert_eq!((run.total, run.calls), (0, 0));
}

#[test]
fn benchmark_total_is_held_at_the_largest_count() {
    let mut run = BenchmarkRun { target: u64::MAX, total: u64::MAX - 10, calls: u64::MAX };
    assert!(run.record_step(11));
    assert_eq!(run.total, u64::MAX);
    assert_eq!(run.calls, u64::MAX);
}

#[test]
fn even_steps_take_the_rounded_up_quotient_of_calls() {
    for target in [0u64, 1, 999, 1000, 1001, 10_000, 12_345] {
        for cycles in [1u32, 2, 7, 1000, 4096] {
            let run = run_with_even_steps(target, cycles);
            let needed = (target + cycles as u64 - 1) / cycles as u64;
            assert_eq!(run.calls, needed);
            assert_eq!(run.total, needed * cycles as u64);
            assert!(run.total >= target);
        }
    }
}

#[test]
fn report_carries_the_run_and_the_elapsed_time() {
    let run = run_with_even_steps(10_000, 1000);
    let report = run.report(2_000, 5_000);
    assert_eq!(
        report,
        BenchmarkReport { elapsed_nanos: 3_000, total_cycles: 10_000, target_cycles: 10_000, calls: 10 }
    );
    assert_eq!(run.report(5_000, 2_000).elapsed_nanos, 0);
}

#[test]
fn throughput_is_cycles_per_second_rounded_down() {
    let report = BenchmarkReport {
        elapsed_nanos: 4_000_000_000,
        total_cycles: 120_000_001,
        target_cycles: 120_000_000,
        calls: 30_000_000,
    };
    assert_eq!(report.cycles_per_second(), Some(30_000_000));
    let quick = BenchmarkReport { elapsed_nanos: 3, total_cycles: 10, target_cycles: 10, calls: 1 };
    assert_eq!(quick.cycles_per_second(), Some(3_333_333_333));
    let huge = BenchmarkReport { elapsed_nanos: 1, total_cycles: u64::MAX, target_cycles: 0, calls: 1 };
    assert_eq!(huge.cycles_per_second(), Some(u64::MAX as u128 * 1_000_000_000));
}

#[test]
fn speed_ratio_is_nominal_over_measured_time_in_thousandths() {
    let report = BenchmarkReport {
        elapsed_nanos: 4_000_000_000,
        total_cycles: 120_000_000,
        target_cycles: 120_000_000,
        calls: 1,
    };
    assert_eq!(report.speed_ratio(20), Some(5_000));
    assert_eq!(report.speed_ratio(1), Some(250));
    let slow = BenchmarkReport { elapsed_nanos: 60_000_000_000, ..report };
    assert_eq!(slow.speed_ratio(20), Some(333));
}

#[test]
fn run_that_took_no_time_has_no_rates() {
    let report = BenchmarkReport { elapsed_nanos: 0, total_cycles: 10, target_cycles: 10, calls: 1 };
    assert_eq!(report.cycles_per_second(), None);
    assert_eq!(report.speed_ratio(20), None);
}
