use rust_container::clock::{timespec_bytes, CLOCK_START_NS};
use rust_container::sandbox::SandboxedProcess;
use rust_container::status::{classify_wait_status, WaitEvent};
use rust_container::syscalls_x86_64::{
    EntryAction, ExitAction, REG_BUFFER_WORDS, REG_ORIG_RAX, REG_R10, REG_RAX, REG_RDI, REG_RDX,
    REG_RSI, SKIPPED_SYSCALL,
};

#[test]
fn wait_status_exit() {
    assert_eq!(classify_wait_status(0), WaitEvent::Exit(0));
    assert_eq!(classify_wait_status(3 << 8), WaitEvent::Exit(3));
}

#[test]
fn wait_status_killed_by_signal() {
    assert_eq!(classify_wait_status(9), WaitEvent::Exit(-9));
    assert_eq!(classify_wait_status(0x80 | 11), WaitEvent::Exit(-11));
}

#[test]
fn wait_status_syscall_stop() {
    assert_eq!(classify_wait_status((0x85 << 8) | 0x7f), WaitEvent::SyscallStop);
    // a plain SIGTRAP stop is not a syscall stop
    assert_eq!(classify_wait_status((5 << 8) | 0x7f), WaitEvent::Other);
    assert_eq!(classify_wait_status((19 << 8) | 0x7f), WaitEvent::Other);
}

#[test]
fn wait_status_new_child() {
    for event in 1..=3 {
        assert_eq!(classify_wait_status((event << 16) | (5 << 8) | 0x7f), WaitEvent::NewChild);
    }
    assert_eq!(classify_wait_status((4 << 16) | (5 << 8) | 0x7f), WaitEvent::Other);
}

#[test]
fn process_record_from_pid() {
    let p = SandboxedProcess::from_pid(42);
    assert_eq!(p.pid(), 42);
    assert!(p.is_entry());
    assert!(p.needs_resume());
    assert_eq!(p.skipped_return_value(), None);
    assert!(p.is_entry());
}

#[test]
fn process_record_resume_and_event() {
    let mut p = SandboxedProcess::from_pid(7);
    p.mark_resumed();
    assert!(!p.needs_resume());
    // reading a status leaves the record as it is
    assert_eq!(p.handle_event(0), WaitEvent::Exit(0));
    assert_eq!(p.handle_event((0x85 << 8) | 0x7f), WaitEvent::SyscallStop);
    assert!(!p.needs_resume());
    assert!(p.is_entry());
    p.mark_stopped();
    assert!(p.needs_resume());
    p.set_is_entry(false);
    assert!(!p.is_entry());
}

#[test]
fn syscall_stops_alternate() {
    let mut p = SandboxedProcess::from_pid(7);
    assert!(p.is_entry());
    p.complete_syscall_stop();
    assert!(!p.is_entry());
    p.complete_syscall_stop();
    assert!(p.is_entry());
}

/// The action at an entry stop of a fresh process.
fn entry(regs: &Vec<u64>, reg_count: usize, now: u128) -> EntryAction {
    let mut p = SandboxedProcess::from_pid(1);
    let action = p.on_syscall_entry(regs, reg_count, now);
    assert_eq!(p.is_entry(), matches!(action, EntryAction::Forbidden));
    action
}

/// A process stopped at a syscall exit.
fn at_exit() -> SandboxedProcess {
    let mut p = SandboxedProcess::from_pid(1);
    p.set_is_entry(false);
    p
}

fn regs_for(nr: u64) -> Vec<u64> {
    let mut regs = vec![0u64; REG_BUFFER_WORDS];
    regs[REG_ORIG_RAX] = nr;
    regs
}

#[test]
fn entry_with_few_registers_is_ignored() {
    let regs = regs_for(83);
    assert!(matches!(entry(&regs, 15, CLOCK_START_NS), EntryAction::Ignore));
}

#[test]
fn forbidden_syscall_entry() {
    let regs = regs_for(83); // mkdir
    assert!(matches!(entry(&regs, 27, CLOCK_START_NS), EntryAction::Forbidden));
    let regs = regs_for(100000);
    assert!(matches!(entry(&regs, 27, CLOCK_START_NS), EntryAction::Forbidden));
}

#[test]
fn ordinary_syscall_entry_continues() {
    let regs = regs_for(0); // read
    assert!(matches!(entry(&regs, 27, CLOCK_START_NS), EntryAction::Continue));
}

#[test]
fn openat_entry_is_shown() {
    let mut regs = regs_for(257);
    regs[REG_RDI] = (-100i64) as u64;
    regs[REG_RSI] = 0x1000;
    match entry(&regs, 27, CLOCK_START_NS) {
        EntryAction::ShowOpenat { dirfd, path_addr } => {
            assert_eq!(dirfd, -100);
            assert_eq!(path_addr, 0x1000);
        }
        other => panic!("unexpected {:?}", other),
    }
}

#[test]
fn write_entry_is_shown_only_for_standard_streams() {
    let mut regs = regs_for(1);
    regs[REG_RDI] = 1;
    regs[REG_RSI] = 0x2000;
    regs[REG_RDX] = 300;
    match entry(&regs, 27, CLOCK_START_NS) {
        EntryAction::ShowWrite { fd, addr, len, escaped_len } => {
            assert_eq!((fd, addr, len, escaped_len), (1, 0x2000, 300, 128));
        }
        other => panic!("unexpected {:?}", other),
    }
    regs[REG_RDX] = 5;
    match entry(&regs, 27, CLOCK_START_NS) {
        EntryAction::ShowWrite { escaped_len, .. } => assert_eq!(escaped_len, 5),
        other => panic!("unexpected {:?}", other),
    }
    regs[REG_RDI] = 3;
    assert!(matches!(entry(&regs, 27, CLOCK_START_NS), EntryAction::Continue));
    regs[REG_RDI] = 2;
    regs[REG_RDX] = 1000000;
    assert!(matches!(entry(&regs, 27, CLOCK_START_NS), EntryAction::Continue));
    regs[REG_RDX] = 0;
    assert!(matches!(entry(&regs, 27, CLOCK_START_NS), EntryAction::Continue));
}

#[test]
fn clock_gettime_reports_virtual_time() {
    let mut regs = regs_for(228);
    regs[REG_RSI] = 0x3000;
    let now = CLOCK_START_NS + 2_000_000_007;
    match entry(&regs, 27, now) {
        EntryAction::ReportTime { timespec_addr, timespec } => {
            assert_eq!(timespec_addr, 0x3000);
            assert_eq!(timespec, timespec_bytes(now));
            let secs = u64::from_le_bytes(timespec[0..8].try_into().unwrap());
            let nanos = i64::from_le_bytes(timespec[8..16].try_into().unwrap());
            assert_eq!(secs, 123456791);
            assert_eq!(nanos, 7);
        }
        other => panic!("unexpected {:?}", other),
    }
}

#[test]
fn sleeps_name_their_request() {
    let mut regs = regs_for(35);
    regs[REG_RDI] = 0x4000;
    assert!(matches!(
        entry(&regs, 27, CLOCK_START_NS),
        EntryAction::Sleep { request_addr: 0x4000 }
    ));
    let mut regs = regs_for(230);
    regs[REG_RDX] = 0x5000;
    regs[REG_R10] = 0x6000;
    assert!(matches!(
        entry(&regs, 27, CLOCK_START_NS),
        EntryAction::Sleep { request_addr: 0x5000 }
    ));
}

#[test]
fn waits_are_reported() {
    for nr in [61u64, 247] {
        let regs = regs_for(nr);
        assert!(matches!(entry(&regs, 27, CLOCK_START_NS), EntryAction::WaitForSubprocess));
    }
}

#[test]
fn answered_getrandom_returns_its_length() {
    let mut p = SandboxedProcess::from_pid(1);
    let mut regs = regs_for(318);
    regs[REG_RDI] = 0x7000;
    regs[REG_RSI] = 8;
    match p.on_syscall_entry(&regs, 27, CLOCK_START_NS) {
        EntryAction::FakeRandom { buf_addr, len } => assert_eq!((buf_addr, len), (0x7000, 8)),
        other => panic!("unexpected {:?}", other),
    }
    assert_eq!(p.skipped_return_value(), Some(8));
    assert!(!p.is_entry());
    let mut exit_regs = regs_for(SKIPPED_SYSCALL);
    exit_regs[REG_RAX] = (-38i64) as u64;
    match p.on_syscall_exit(&exit_regs) {
        ExitAction::SetRegisters(r) => {
            assert_eq!(r[REG_RAX], 8);
            assert_eq!(r[REG_ORIG_RAX], SKIPPED_SYSCALL);
        }
        other => panic!("unexpected {:?}", other),
    }
    assert_eq!(p.skipped_return_value(), None);
}

#[test]
fn other_skipped_syscalls_return_zero() {
    let mut p = at_exit();
    let mut exit_regs = regs_for(SKIPPED_SYSCALL);
    exit_regs[REG_RAX] = 99;
    match p.on_syscall_exit(&exit_regs) {
        ExitAction::SetRegisters(r) => assert_eq!(r[REG_RAX], 0),
        other => panic!("unexpected {:?}", other),
    }
}

#[test]
fn successful_execve_disables_vdso() {
    let mut regs = regs_for(59);
    regs[REG_RAX] = 0;
    assert!(matches!(at_exit().on_syscall_exit(&regs), ExitAction::DisableVdso));
    regs[REG_RAX] = (-2i64) as u64;
    assert!(matches!(at_exit().on_syscall_exit(&regs), ExitAction::Nothing));
    let regs = regs_for(0);
    assert!(matches!(at_exit().on_syscall_exit(&regs), ExitAction::Nothing));
}

#[test]
fn skip_registers_marks_the_syscall() {
    let regs: Vec<u64> = (0..64).collect();
    let skipping = rust_container::syscalls_x86_64::skip_registers(&regs);
    assert_eq!(skipping[REG_ORIG_RAX], SKIPPED_SYSCALL);
    for i in 0..64 {
        if i != REG_ORIG_RAX {
            assert_eq!(skipping[i], i as u64);
        }
    }
}
