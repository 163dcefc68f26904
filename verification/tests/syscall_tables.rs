use rust_container::sandbox;
use rust_container::syscalls_aarch64;
use rust_container::syscalls_x86_64;

#[test]
fn sandbox_table_names_known_syscalls() {
    assert_eq!(sandbox::syscall_name(79), "getcwd");
    assert_eq!(sandbox::syscall_name(0), "read");
    assert_eq!(sandbox::syscall_name(258), "mkdirat");
    assert_eq!(sandbox::syscall_name(435), "clone3");
    assert_eq!(sandbox::syscall_name(83), "unknown");
    assert_eq!(sandbox::syscall_name(u64::MAX), "unknown");
}

#[test]
fn sandbox_table_allowlist() {
    assert!(sandbox::is_allowed(0));
    assert!(sandbox::is_allowed(1));
    assert!(sandbox::is_allowed(332));
    assert!(!sandbox::is_allowed(258));
    assert!(!sandbox::is_allowed(83));
    assert!(sandbox::is_allowed(138)); // fstatfs
    assert!(sandbox::is_allowed(439)); // faccessat2
    assert_eq!(sandbox::syscall_name(138), "fstatfs");
    assert_eq!(sandbox::syscall_name(439), "faccessat2");
    assert!(!sandbox::is_allowed(u64::MAX));
}

#[test]
fn sandbox_every_allowed_syscall_is_named() {
    for nr in 0..1000u64 {
        if sandbox::is_allowed(nr) {
            assert_ne!(sandbox::syscall_name(nr), "unknown", "syscall {}", nr);
        }
    }
    // a named syscall that is refused
    assert_ne!(sandbox::syscall_name(258), "unknown");
    assert!(!sandbox::is_allowed(258));
}

#[test]
fn x86_64_names_come_from_the_syscall_table() {
    assert_eq!(syscalls_x86_64::syscall_name(1), "write");
    assert_eq!(syscalls_x86_64::syscall_name(83), "mkdir");
    assert_eq!(syscalls_x86_64::syscall_name(318), "getrandom");
    assert_eq!(syscalls_x86_64::syscall_name(100000), "unknown");
}

#[test]
fn x86_64_allowlist() {
    assert!(syscalls_x86_64::is_allowed(0));
    assert!(syscalls_x86_64::is_allowed(201)); // time
    assert!(syscalls_x86_64::is_allowed(247)); // waitid
    assert!(syscalls_x86_64::is_allowed(258)); // mkdirat
    assert!(syscalls_x86_64::is_allowed(439)); // faccessat2
    assert!(!syscalls_x86_64::is_allowed(u64::MAX));
    assert!(!syscalls_x86_64::is_allowed(83)); // mkdir
    assert!(!syscalls_x86_64::is_allowed(57)); // fork
    assert!(!syscalls_x86_64::is_allowed(100000));
    for nr in 0..1000u64 {
        if syscalls_x86_64::is_allowed(nr) {
            assert_ne!(syscalls_x86_64::syscall_name(nr), "unknown");
        }
    }
}

#[test]
fn aarch64_names_and_allowlist() {
    assert_eq!(syscalls_aarch64::syscall_name(17), "getcwd");
    assert_eq!(syscalls_aarch64::syscall_name(64), "write");
    assert_eq!(syscalls_aarch64::syscall_name(100000), "unknown");
    assert!(syscalls_aarch64::is_allowed(64));
    assert!(syscalls_aarch64::is_allowed(220)); // clone
    assert!(syscalls_aarch64::is_allowed(439)); // faccessat2
    assert!(!syscalls_aarch64::is_allowed(34)); // mkdirat
    assert!(!syscalls_aarch64::is_allowed(100000));
}

#[test]
fn aarch64_syscall_args_from_registers() {
    let regs: Vec<u64> = (10..74).collect();
    let call = syscalls_aarch64::syscall_args_from_registers(&regs, 64);
    assert_eq!(call.sysno, Some(64));
    assert_eq!(call.args, [10, 11, 12, 13, 14, 15]);
    let none = syscalls_aarch64::syscall_args_from_registers(&regs, -1);
    assert_eq!(none.sysno, None);
    let unknown = syscalls_aarch64::syscall_args_from_registers(&regs, 5000);
    assert_eq!(unknown.sysno, None);
    let negative = syscalls_aarch64::syscall_args_from_registers(&regs, -7);
    assert_eq!(negative.sysno, None);
}

#[test]
fn unknown_exactly_outside_the_syscall_tables() {
    for nr in 0..600u64 {
        let x86_known = nr <= 334 || (424..=461).contains(&nr);
        assert_eq!(syscalls_x86_64::syscall_name(nr) == "unknown", !x86_known, "x86_64 {}", nr);
        let arm_known = nr <= 243 || (260..=294).contains(&nr) || (403..=414).contains(&nr)
            || (416..=461).contains(&nr);
        assert_eq!(syscalls_aarch64::syscall_name(nr) == "unknown", !arm_known, "aarch64 {}", nr);
    }
}
