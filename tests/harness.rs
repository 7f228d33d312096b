use vm_bench::harness::{Harness, HarnessError, RunResult, MAX_TOTAL_NANOS, PROGRESS_EVERY, RUNS};

fn exited(code: i8, cycles: u64, a1: u64) -> RunResult {
    RunResult { exit: Ok(code), cycles, a1 }
}

#[test]
fn constants() {
    assert_eq!(RUNS, 10000);
    assert_eq!(PROGRESS_EVERY, 1000);
    assert_eq!(MAX_TOTAL_NANOS, std::time::Duration::MAX.as_nanos());
}

#[test]
fn identical_runs_are_accepted() {
    let mut harness = Harness::new(3);
    for i in 0..3u32 {
        assert!(!harness.is_finished());
        let step = harness.record(Ok(exited(0, 1234, 42)), 10).unwrap();
        assert_eq!(step, if i == 0 { Some(0) } else { None });
    }
    assert!(harness.is_finished());
    let summary = harness.finish();
    assert_eq!(summary.result.exit, Ok(0));
    assert_eq!(summary.result.cycles, 1234);
    assert_eq!(summary.result.a1, 42);
}

#[test]
fn identical_failures_are_accepted() {
    let mut harness = Harness::new(3);
    for _ in 0..3 {
        let run = RunResult { exit: Err(ckb_vm::Error::InvalidEcall(64)), cycles: 9, a1: 0 };
        assert!(harness.record(Ok(run), 1).is_ok());
    }
    let summary = harness.finish();
    assert_eq!(summary.result.exit, Err(ckb_vm::Error::InvalidEcall(64)));
}

#[test]
fn differing_cycles_are_a_mismatch() {
    let mut harness = Harness::new(3);
    assert!(harness.record(Ok(exited(0, 100, 1)), 5).is_ok());
    match harness.record(Ok(exited(0, 101, 1)), 5) {
        Err(HarnessError::Mismatch { previous, current }) => {
            assert_eq!(previous.cycles, 100);
            assert_eq!(current.cycles, 101);
        }
        other => panic!("expected a mismatch, got {:?}", other),
    }
}

#[test]
fn differing_register_is_a_mismatch() {
    let mut harness = Harness::new(5);
    assert!(harness.record(Ok(exited(0, 100, 1)), 5).is_ok());
    assert!(harness.record(Ok(exited(0, 100, 1)), 5).is_ok());
    assert!(matches!(
        harness.record(Ok(exited(0, 100, 2)), 5),
        Err(HarnessError::Mismatch { .. })
    ));
}

#[test]
fn differing_exit_is_a_mismatch() {
    let mut harness = Harness::new(3);
    assert!(harness.record(Ok(exited(0, 100, 1)), 5).is_ok());
    assert!(matches!(
        harness.record(Ok(exited(1, 100, 1)), 5),
        Err(HarnessError::Mismatch { .. })
    ));
}

#[test]
fn differing_errors_are_a_mismatch() {
    let mut harness = Harness::new(3);
    let first = RunResult { exit: Err(ckb_vm::Error::External("a".to_string())), cycles: 3, a1: 0 };
    let second = RunResult { exit: Err(ckb_vm::Error::External("b".to_string())), cycles: 3, a1: 0 };
    assert!(harness.record(Ok(first), 5).is_ok());
    assert!(matches!(harness.record(Ok(second), 5), Err(HarnessError::Mismatch { .. })));
}

#[test]
fn error_against_exit_is_a_mismatch() {
    let mut harness = Harness::new(3);
    let failed = RunResult { exit: Err(ckb_vm::Error::MemOutOfBound), cycles: 3, a1: 0 };
    assert!(harness.record(Ok(exited(0, 3, 0)), 5).is_ok());
    assert!(matches!(harness.record(Ok(failed), 5), Err(HarnessError::Mismatch { .. })));
}

#[test]
fn same_as_compares_every_part() {
    let a = exited(0, 10, 20);
    assert!(a.same_as(&exited(0, 10, 20)));
    assert!(!a.same_as(&exited(0, 10, 21)));
    assert!(!a.same_as(&exited(0, 11, 20)));
    assert!(!a.same_as(&exited(-1, 10, 20)));
    let e = RunResult { exit: Err(ckb_vm::Error::CyclesExceeded), cycles: 10, a1: 20 };
    assert!(e.same_as(&RunResult { exit: Err(ckb_vm::Error::CyclesExceeded), cycles: 10, a1: 20 }));
    assert!(!e.same_as(&RunResult { exit: Err(ckb_vm::Error::CyclesOverflow), cycles: 10, a1: 20 }));
    assert!(!e.same_as(&a));
}

#[test]
fn load_failure_stops_before_any_run() {
    let mut harness = Harness::new(RUNS);
    match harness.record(Err(ckb_vm::Error::ElfBits), 0) {
        Err(HarnessError::Load(e)) => assert_eq!(e, ckb_vm::Error::ElfBits),
        other => panic!("expected a load failure, got {:?}", other),
    }
}

#[test]
fn fixed_delay_gives_that_average() {
    let mut harness = Harness::new(4);
    for _ in 0..4 {
        assert!(harness.record(Ok(exited(0, 1, 1)), 1_500_000_000).is_ok());
    }
    let summary = harness.finish();
    assert_eq!(summary.average_secs, 1);
    assert_eq!(summary.average_subsec_nanos, 500_000_000);
}

#[test]
fn average_is_the_sum_over_the_count_rounded_down() {
    let mut harness = Harness::new(3);
    for t in [10u128, 20, 31] {
        assert!(harness.record(Ok(exited(0, 1, 1)), t).is_ok());
    }
    let summary = harness.finish();
    assert_eq!(summary.average_secs, 0);
    assert_eq!(summary.average_subsec_nanos, 20);
}

#[test]
fn average_matches_duration_division() {
    let times = [3_000_000_001u128, 7_999_999_999, 5];
    let mut harness = Harness::new(3);
    let mut total = std::time::Duration::new(0, 0);
    for t in times {
        total += std::time::Duration::from_nanos(t as u64);
        assert!(harness.record(Ok(exited(0, 1, 1)), t).is_ok());
    }
    let expected = total / 3;
    let summary = harness.finish();
    assert_eq!(summary.average_secs, expected.as_secs());
    assert_eq!(summary.average_subsec_nanos, expected.subsec_nanos());
}

#[test]
fn progress_marker_every_thousand_runs() {
    let mut harness = Harness::new(2001);
    let mut marks = Vec::new();
    while !harness.is_finished() {
        if let Some(i) = harness.record(Ok(exited(0, 1, 1)), 1).unwrap() {
            marks.push(i);
        }
    }
    assert_eq!(marks, vec![0, 1000, 2000]);
}

#[test]
fn summed_time_beyond_a_duration_is_refused() {
    let mut harness = Harness::new(3);
    assert!(harness.record(Ok(exited(0, 1, 1)), MAX_TOTAL_NANOS).is_ok());
    assert!(matches!(
        harness.record(Ok(exited(0, 1, 1)), 1),
        Err(HarnessError::TimeOverflow)
    ));
}

#[test]
fn largest_total_is_accepted() {
    let mut harness = Harness::new(2);
    assert!(harness.record(Ok(exited(0, 1, 1)), MAX_TOTAL_NANOS - 1).is_ok());
    assert!(harness.record(Ok(exited(0, 1, 1)), 1).is_ok());
    let summary = harness.finish();
    let expected = std::time::Duration::MAX / 2;
    assert_eq!(summary.average_secs, expected.as_secs());
    assert_eq!(summary.average_subsec_nanos, expected.subsec_nanos());
}

#[test]
fn exit_status_is_the_exit_code() {
    assert_eq!(exited(3, 0, 0).exit_status(), Ok(3));
    assert_eq!(exited(-1, 0, 0).exit_status(), Ok(-1));
}

#[test]
fn exit_status_of_a_failed_run_is_its_error() {
    let run = RunResult { exit: Err(ckb_vm::Error::MemOutOfStack), cycles: 0, a1: 0 };
    assert_eq!(run.exit_status(), Err(ckb_vm::Error::MemOutOfStack));
}
