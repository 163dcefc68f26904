use rust_container::clock::{CLOCK_START_NS, NANOS_PER_SEC};
use rust_container::driver::{real_time_limit_exceeded, Scheduler, SchedulerOutcome, SchedulerStep};
use rust_container::sandbox::{SandboxState, SandboxedProcess};
use rust_container::vdso::{VdsoPhase, VdsoScan, VdsoStep, AT_SYSINFO_EHDR};
use std::collections::BTreeMap;

/// Runs a scan over a simulated stack; returns the addresses that were zeroed.
fn run_scan(sp: u64, memory: &mut BTreeMap<u64, i64>) -> (Vec<u64>, VdsoStep) {
    let mut scan = VdsoScan::new(sp);
    let mut zeroed = Vec::new();
    loop {
        match scan.next_step() {
            VdsoStep::Peek(addr) => {
                let (value, failed) = match memory.get(&addr) {
                    Some(v) => (*v, false),
                    None => (-1, true),
                };
                if let Some(at) = scan.on_peek(value, failed) {
                    memory.insert(at, 0);
                    zeroed.push(at);
                }
            }
            other => return (zeroed, other),
        }
    }
}

fn initial_stack(sp: u64, vdso: i64) -> BTreeMap<u64, i64> {
    let mut m = BTreeMap::new();
    let words: Vec<i64> = vec![
        2,          // argc
        0x7000, 0x7008, 0, // argv
        0x7100, 0, // envp
        6, 4096,   // AT_PAGESZ
        AT_SYSINFO_EHDR, vdso,
        25, 0x7200, // AT_RANDOM
        0, 0,
    ];
    for (i, w) in words.iter().enumerate() {
        m.insert(sp + 8 * i as u64, *w);
    }
    // a copy of the vDSO address further up the stack
    m.insert(sp + 8 * 20, vdso);
    for i in 0..1024u64 {
        m.entry(sp + 8 * i).or_insert(0);
    }
    m
}

#[test]
fn vdso_scan_zeroes_the_aux_entry_and_stack_copies() {
    let sp = 0x7ffe_0000u64;
    let vdso = 0x7fff_f000i64;
    let mut memory = initial_stack(sp, vdso);
    let (zeroed, end) = run_scan(sp, &mut memory);
    assert_eq!(end, VdsoStep::Done);
    assert_eq!(zeroed, vec![sp + 8 * 9, sp + 8 * 20]);
    assert!(memory.values().all(|v| *v != vdso));
}

#[test]
fn vdso_scan_without_vdso_entry_changes_nothing() {
    let sp = 0x1000u64;
    let mut memory = initial_stack(sp, 0);
    memory.insert(sp + 8 * 8, 7); // the AT_SYSINFO_EHDR key becomes AT_BASE
    let (zeroed, end) = run_scan(sp, &mut memory);
    assert_eq!(end, VdsoStep::Done);
    assert!(zeroed.is_empty());
}

#[test]
fn vdso_scan_stops_when_argc_cannot_be_read() {
    let mut memory = BTreeMap::new();
    let (zeroed, end) = run_scan(0x1000, &mut memory);
    assert_eq!(end, VdsoStep::Done);
    assert!(zeroed.is_empty());
}

#[test]
fn vdso_scan_phases() {
    let sp = 0x2000u64;
    let mut scan = VdsoScan::new(sp);
    assert_eq!(scan.current_phase(), VdsoPhase::ReadArgc);
    assert_eq!(scan.next_step(), VdsoStep::Peek(sp));
    assert_eq!(scan.on_peek(1, false), None);
    assert_eq!(scan.current_phase(), VdsoPhase::SkipEnv { addr: sp + 24 });
    assert_eq!(scan.on_peek(0, false), None);
    assert_eq!(scan.current_phase(), VdsoPhase::ReadAuxKey { addr: sp + 32 });
    assert_eq!(scan.on_peek(AT_SYSINFO_EHDR, false), None);
    assert_eq!(scan.next_step(), VdsoStep::Peek(sp + 40));
    assert_eq!(scan.on_peek(0x5000, false), Some(sp + 40));
    assert_eq!(scan.current_phase(), VdsoPhase::ScanStack { index: 0, vdso: 0x5000 });
}

#[test]
fn vdso_scan_stops_on_an_unreadable_environment() {
    let mut scan = VdsoScan::new(0x2000);
    scan.on_peek(0, false);
    scan.on_peek(-1, true);
    assert_eq!(scan.next_step(), VdsoStep::Done);
}

#[test]
fn vdso_scan_overflowing_argc() {
    let mut scan = VdsoScan::new(0x2000);
    scan.on_peek(i64::MAX, false);
    assert_eq!(scan.next_step(), VdsoStep::AddressOverflow);
}

fn child(pid: i32) -> SandboxState {
    SandboxState::NewChild(SandboxedProcess::from_pid(pid))
}

fn expect_run(s: &mut Scheduler) -> (i32, u128, Option<i32>) {
    match s.next_step() {
        SchedulerStep::Run { pid, now_ns, woke } => (pid, now_ns, woke),
        other => panic!("expected a process to run, got {:?}", other),
    }
}

#[test]
fn scheduler_runs_a_single_process_to_exit() {
    let mut s = Scheduler::new(10, 100);
    assert_eq!(s.now_ns(), CLOCK_START_NS);
    assert_eq!(expect_run(&mut s), (10, CLOCK_START_NS, None));
    assert_eq!(s.record(10, &SandboxState::SchedYield), SchedulerOutcome::Continue { woke: None });
    assert_eq!(expect_run(&mut s), (10, CLOCK_START_NS, None));
    assert_eq!(s.record(10, &SandboxState::Exit(0)), SchedulerOutcome::Continue { woke: None });
    assert_eq!(s.next_step(), SchedulerStep::Finished);
}

#[test]
fn scheduler_reports_a_failing_last_process() {
    let mut s = Scheduler::new(10, 100);
    expect_run(&mut s);
    assert_eq!(s.record(10, &SandboxState::Exit(3)), SchedulerOutcome::Exited(3));
}

#[test]
fn scheduler_failing_process_with_others_left_goes_on() {
    let mut s = Scheduler::new(10, 100);
    expect_run(&mut s);
    s.record(10, &child(11));
    assert_eq!(expect_run(&mut s).0, 11);
    assert_eq!(s.record(11, &SandboxState::Exit(3)), SchedulerOutcome::Continue { woke: None });
    assert_eq!(expect_run(&mut s).0, 10);
}

#[test]
fn scheduler_new_child_runs_before_its_parent() {
    let mut s = Scheduler::new(10, 100);
    expect_run(&mut s);
    s.record(10, &child(11));
    assert_eq!(s.runnable_count(), 2);
    assert_eq!(expect_run(&mut s).0, 11);
    s.record(11, &SandboxState::SchedYield);
    assert_eq!(expect_run(&mut s).0, 10);
}

#[test]
fn scheduler_wakes_the_earliest_sleeper_and_advances_time() {
    let mut s = Scheduler::new(1, 100);
    expect_run(&mut s);
    s.record(1, &child(2));
    expect_run(&mut s); // 2
    s.record(2, &child(3));
    let t0 = CLOCK_START_NS;
    // runnable: 1, 3, 2
    assert_eq!(expect_run(&mut s).0, 1);
    s.record(1, &SandboxState::Pause(t0 + 5 * NANOS_PER_SEC));
    assert_eq!(expect_run(&mut s).0, 3);
    s.record(3, &SandboxState::Pause(t0 + 2 * NANOS_PER_SEC));
    assert_eq!(expect_run(&mut s).0, 2);
    s.record(2, &SandboxState::Pause(t0 + 2 * NANOS_PER_SEC));
    // nothing runnable: the earliest sleeper, first among equals, wakes
    assert_eq!(expect_run(&mut s), (3, t0 + 2 * NANOS_PER_SEC, Some(3)));
    s.record(3, &SandboxState::Exit(0));
    assert_eq!(expect_run(&mut s), (2, t0 + 2 * NANOS_PER_SEC, Some(2)));
    s.record(2, &SandboxState::Exit(0));
    assert_eq!(expect_run(&mut s), (1, t0 + 5 * NANOS_PER_SEC, Some(1)));
    s.record(1, &SandboxState::Exit(0));
    assert_eq!(s.next_step(), SchedulerStep::Finished);
    assert_eq!(s.now_ns(), t0 + 5 * NANOS_PER_SEC);
}

#[test]
fn scheduler_advances_time_when_everyone_yields() {
    let mut s = Scheduler::new(1, 100);
    expect_run(&mut s);
    s.record(1, &child(2));
    // runnable: 2, 1
    assert_eq!(expect_run(&mut s).0, 2);
    s.record(2, &SandboxState::Pause(CLOCK_START_NS + NANOS_PER_SEC));
    assert_eq!(expect_run(&mut s).0, 1);
    // one runnable process yields: that is everyone
    assert_eq!(
        s.record(1, &SandboxState::SchedYield),
        SchedulerOutcome::Continue { woke: Some(2) }
    );
    assert_eq!(s.now_ns(), CLOCK_START_NS + NANOS_PER_SEC);
    assert_eq!(s.yields_in_a_row(), 0);
    assert_eq!(expect_run(&mut s), (1, CLOCK_START_NS + NANOS_PER_SEC, None));
    assert_eq!(expect_run(&mut s).0, 2);
}

#[test]
fn scheduler_wakes_waiting_processes_when_one_exits() {
    let mut s = Scheduler::new(1, 100);
    expect_run(&mut s);
    s.record(1, &child(2));
    expect_run(&mut s); // 2
    s.record(2, &SandboxState::SchedYield);
    expect_run(&mut s); // 1
    s.record(1, &SandboxState::WaitForSubprocess);
    assert_eq!(expect_run(&mut s).0, 2);
    s.record(2, &SandboxState::Exit(0));
    assert_eq!(expect_run(&mut s).0, 1);
}

#[test]
fn scheduler_detects_deadlock() {
    let mut s = Scheduler::new(1, 100);
    expect_run(&mut s);
    s.record(1, &SandboxState::WaitForSubprocess);
    assert_eq!(s.next_step(), SchedulerStep::Deadlock);
}

#[test]
fn scheduler_step_limit() {
    let mut s = Scheduler::new(1, 2);
    expect_run(&mut s);
    assert_eq!(s.record(1, &child(2)), SchedulerOutcome::Continue { woke: None });
    expect_run(&mut s);
    // yields take no step
    assert_eq!(s.record(2, &SandboxState::SchedYield), SchedulerOutcome::Continue { woke: None });
    assert_eq!(s.steps_taken(), 1);
    expect_run(&mut s);
    assert_eq!(s.record(1, &SandboxState::WaitForSubprocess), SchedulerOutcome::Continue { woke: None });
    expect_run(&mut s);
    assert_eq!(s.record(2, &SandboxState::Pause(CLOCK_START_NS)), SchedulerOutcome::StepLimitExceeded);
    assert_eq!(s.steps_taken(), 3);
}

#[test]
fn scheduler_keeps_every_process() {
    // every process handed in comes out again exactly once, until it exits
    let mut s = Scheduler::new(1, 1000);
    let mut seen = Vec::new();
    expect_run(&mut s);
    s.record(1, &child(2));
    for _ in 0..6 {
        let (pid, _, _) = expect_run(&mut s);
        seen.push(pid);
        s.record(pid, &SandboxState::SchedYield);
    }
    assert_eq!(seen, vec![2, 1, 2, 1, 2, 1]);
    assert_eq!(s.runnable_count(), 2);
}

#[test]
fn real_time_limit() {
    assert!(!real_time_limit_exceeded(u128::MAX, None));
    assert!(!real_time_limit_exceeded(1_000, Some(1_000)));
    assert!(real_time_limit_exceeded(1_001, Some(1_000)));
    assert!(!real_time_limit_exceeded(0, Some(0)));
}

#[test]
fn only_an_exit_ends_the_run_with_a_code() {
    let mut s = Scheduler::new(1, 100);
    expect_run(&mut s);
    assert_eq!(s.record(1, &child(2)), SchedulerOutcome::Continue { woke: None });
    expect_run(&mut s);
    assert_eq!(s.record(2, &SandboxState::WaitForSubprocess), SchedulerOutcome::Continue { woke: None });
    expect_run(&mut s);
    assert_eq!(
        s.record(1, &SandboxState::Pause(CLOCK_START_NS + 1)),
        SchedulerOutcome::Continue { woke: None }
    );
}
