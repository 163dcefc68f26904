//! The sandbox's own syscall table for x86_64 (the names it reports and the
//! allowlist it enforces, keyed by the raw syscall number), and its record of
//! each traced process.
use vstd::prelude::*;
use crate::status::{WaitEvent, wait_event_of, classify_wait_status};

verus! {

/// The name that the sandbox reports for a syscall number, where it knows one.
pub open spec fn known_syscall_name(nr: u64) -> Option<&'static str> {
    match nr {
        79 => Some("getcwd"),
        72 => Some("fcntl"),
        16 => Some("ioctl"),
        258 => Some("mkdirat"),
        137 => Some("fstatfs"),
        138 => Some("fstatfs"),
        269 => Some("faccessat"),
        257 => Some("openat"),
        3 => Some("close"),
        8 => Some("lseek"),
        0 => Some("read"),
        1 => Some("write"),
        17 => Some("pread64"),
        271 => Some("ppoll"),
        267 => Some("readlinkat"),
        262 => Some("newfstatat"),
        5 => Some("fstat"),
        7 => Some("poll"),
        231 => Some("exit_group"),
        218 => Some("set_tid_address"),
        273 => Some("set_robust_list"),
        35 => Some("nanosleep"),
        228 => Some("clock_gettime"),
        230 => Some("clock_nanosleep"),
        204 => Some("sched_getaffinity"),
        234 => Some("tgkill"),
        131 => Some("sigaltstack"),
        13 => Some("rt_sigaction"),
        14 => Some("rt_sigprocmask"),
        15 => Some("rt_sigreturn"),
        63 => Some("uname"),
        97 => Some("getrlimit"),
        302 => Some("prlimit64"),
        39 => Some("getpid"),
        186 => Some("gettid"),
        99 => Some("sysinfo"),
        202 => Some("futex"),
        11 => Some("munmap"),
        12 => Some("brk"),
        21 => Some("access"),
        158 => Some("arch_prctl"),
        334 => Some("rseq"),
        59 => Some("execve"),
        9 => Some("mmap"),
        10 => Some("mprotect"),
        157 => Some("prctl"),
        318 => Some("getrandom"),
        319 => Some("memfd_create"),
        435 => Some("clone3"),
        61 => Some("wait4"),
        332 => Some("statx"),
        439 => Some("faccessat2"),
        _ => None,
    }
}

/// The syscall numbers that a sandboxed process may issue.
pub open spec fn allowed_syscalls() -> Set<u64> {
    set![
        79, 72, 16, 137, 269, 257, 3, 8, 0, 1,
        17, 271, 267, 262, 5, 7, 231, 218, 273, 35,
        228, 230, 204, 234, 131, 13, 14, 15, 63, 97,
        302, 39, 186, 99, 202, 11, 12, 21, 158, 334,
        59, 9, 10, 157, 318, 319, 435, 61, 332, 138, 439
    ]
}

/// Returns the name of syscall `nr`, or `"unknown"` for a number outside the table.
pub fn syscall_name(nr: u64) -> (name: &'static str)
    ensures
        name == (match known_syscall_name(nr) {
            Some(n) => n,
            None => "unknown",
        }),
{
    match nr {
        79 => "getcwd",
        72 => "fcntl",
        16 => "ioctl",
        258 => "mkdirat",
        137 => "fstatfs",
        138 => "fstatfs",
        269 => "faccessat",
        257 => "openat",
        3 => "close",
        8 => "lseek",
        0 => "read",
        1 => "write",
        17 => "pread64",
        271 => "ppoll",
        267 => "readlinkat",
        262 => "newfstatat",
        5 => "fstat",
        7 => "poll",
        231 => "exit_group",
        218 => "set_tid_address",
        273 => "set_robust_list",
        35 => "nanosleep",
        228 => "clock_gettime",
        230 => "clock_nanosleep",
        204 => "sched_getaffinity",
        234 => "tgkill",
        131 => "sigaltstack",
        13 => "rt_sigaction",
        14 => "rt_sigprocmask",
        15 => "rt_sigreturn",
        63 => "uname",
        97 => "getrlimit",
        302 => "prlimit64",
        39 => "getpid",
        186 => "gettid",
        99 => "sysinfo",
        202 => "futex",
        11 => "munmap",
        12 => "brk",
        21 => "access",
        158 => "arch_prctl",
        334 => "rseq",
        59 => "execve",
        9 => "mmap",
        10 => "mprotect",
        157 => "prctl",
        318 => "getrandom",
        319 => "memfd_create",
        435 => "clone3",
        61 => "wait4",
        332 => "statx",
        439 => "faccessat2",
        _ => "unknown",
    }
}

/// Whether the sandbox lets a process issue syscall `nr`.
pub fn is_allowed(nr: u64) -> (allowed: bool)
    ensures
        allowed == allowed_syscalls().contains(nr),
{
    match nr {
        79 | 72 | 16 | 137 | 269 | 257 | 3 | 8 | 0 | 1
        | 17 | 271 | 267 | 262 | 5 | 7 | 231 | 218 | 273 | 35
        | 228 | 230 | 204 | 234 | 131 | 13 | 14 | 15 | 63 | 97
        | 302 | 39 | 186 | 99 | 202 | 11 | 12 | 21 | 158 | 334
        | 59 | 9 | 10 | 157 | 318 | 319 | 435 | 61 | 332 | 138 | 439 => true,
        _ => false,
    }
}

/// Every syscall that the sandbox allows has a name in its table.
pub proof fn allowed_syscalls_are_named(nr: u64)
    requires
        allowed_syscalls().contains(nr),
    ensures
        known_syscall_name(nr) is Some,
{
}

/// What resuming a traced process came to.
#[derive(Debug)]
pub enum SandboxState {
    /// The process forked or cloned; the new process is to be scheduled too.
    NewChild(SandboxedProcess),
    /// The process went to sleep until this instant (nanoseconds since the epoch).
    Pause(u128),
    /// The process is still running; come back to it later.
    SchedYield,
    /// The process waits for a child of its own.
    WaitForSubprocess,
    /// The process is gone, with this exit code (a signal that killed it, negated).
    Exit(i32),
}

/// The sandbox's record of one traced process: its pid, whether its next syscall
/// stop is an entry (they alternate with exits), whether it has to be restarted
/// before the next wait, and the return value to report for a syscall that the
/// sandbox skipped and answered itself.
#[derive(Debug)]
pub struct SandboxedProcess {
    child_pid: i32,
    is_entry: bool,
    needs_resume: bool,
    skipped_return_value: Option<u64>,
}

impl SandboxedProcess {
    pub closed spec fn spec_pid(&self) -> i32 {
        self.child_pid
    }

    pub closed spec fn spec_is_entry(&self) -> bool {
        self.is_entry
    }

    pub closed spec fn spec_needs_resume(&self) -> bool {
        self.needs_resume
    }

    pub closed spec fn spec_skipped_return_value(&self) -> Option<u64> {
        self.skipped_return_value
    }

    /// The record of a process that is already traced and stopped: its next
    /// syscall stop is an entry, and it is to be restarted before the next wait.
    pub fn from_pid(pid: i32) -> (p: Self)
        ensures
            p.spec_pid() == pid,
            p.spec_is_entry(),
            p.spec_needs_resume(),
            p.spec_skipped_return_value() is None,
    {
        SandboxedProcess {
            child_pid: pid,
            is_entry: true,
            needs_resume: true,
            skipped_return_value: None,
        }
    }

    pub fn pid(&self) -> (pid: i32)
        ensures
            pid == self.spec_pid(),
    {
        self.child_pid
    }

    pub fn is_entry(&self) -> (is_entry: bool)
        ensures
            is_entry == self.spec_is_entry(),
    {
        self.is_entry
    }

    pub fn set_is_entry(&mut self, is_entry: bool)
        ensures
            final(self).spec_is_entry() == is_entry,
            final(self).spec_pid() == old(self).spec_pid(),
            final(self).spec_needs_resume() == old(self).spec_needs_resume(),
            final(self).spec_skipped_return_value() == old(self).spec_skipped_return_value(),
    {
        self.is_entry = is_entry;
    }

    pub fn needs_resume(&self) -> (needs: bool)
        ensures
            needs == self.spec_needs_resume(),
    {
        self.needs_resume
    }

    /// The process was restarted (`PTRACE_SYSCALL`); it runs until its next stop.
    pub fn mark_resumed(&mut self)
        ensures
            !final(self).spec_needs_resume(),
            final(self).spec_pid() == old(self).spec_pid(),
            final(self).spec_is_entry() == old(self).spec_is_entry(),
            final(self).spec_skipped_return_value() == old(self).spec_skipped_return_value(),
    {
        self.needs_resume = false;
    }

    pub fn skipped_return_value(&self) -> (value: Option<u64>)
        ensures
            value == self.spec_skipped_return_value(),
    {
        self.skipped_return_value
    }

    pub fn set_skipped_return_value(&mut self, value: Option<u64>)
        ensures
            final(self).spec_skipped_return_value() == value,
            final(self).spec_pid() == old(self).spec_pid(),
            final(self).spec_is_entry() == old(self).spec_is_entry(),
            final(self).spec_needs_resume() == old(self).spec_needs_resume(),
    {
        self.skipped_return_value = value;
    }

    /// A wait found the process stopped or gone: it is to be restarted before the
    /// next wait.
    pub fn mark_stopped(&mut self)
        ensures
            final(self).spec_needs_resume(),
            final(self).spec_pid() == old(self).spec_pid(),
            final(self).spec_is_entry() == old(self).spec_is_entry(),
            final(self).spec_skipped_return_value() == old(self).spec_skipped_return_value(),
    {
        self.needs_resume = true;
    }

    /// What the status of a wait says happened to the process. The record is
    /// left as it is: a syscall stop changes it when it is handled.
    pub fn handle_event(&self, status: i32) -> (event: WaitEvent)
        ensures
            event == wait_event_of(status),
    {
        classify_wait_status(status)
    }

    /// A syscall stop whose registers could not be read has been passed over: the
    /// next stop is of the other kind (an exit after an entry, an entry after an
    /// exit). Stops whose registers were read change phase in `on_syscall_entry`
    /// and `on_syscall_exit`.
    pub fn complete_syscall_stop(&mut self)
        ensures
            final(self).spec_is_entry() == !old(self).spec_is_entry(),
            final(self).spec_pid() == old(self).spec_pid(),
            final(self).spec_needs_resume() == old(self).spec_needs_resume(),
            final(self).spec_skipped_return_value() == old(self).spec_skipped_return_value(),
    {
        self.is_entry = !self.is_entry;
    }
}

/// The sandbox's own allowlist, syscall by syscall: exactly these x86_64
/// numbers may be made; every other number is refused.
pub proof fn allowlist_by_number(nr: u64)
    ensures
        allowed_syscalls().contains(nr) <==> (
            nr == 79  // getcwd
            || nr == 72  // fcntl
            || nr == 16  // ioctl
            || nr == 137  // fstatfs
            || nr == 269  // faccessat
            || nr == 257  // openat
            || nr == 3  // close
            || nr == 8  // lseek
            || nr == 0  // read
            || nr == 1  // write
            || nr == 17  // pread64
            || nr == 271  // ppoll
            || nr == 267  // readlinkat
            || nr == 262  // newfstatat
            || nr == 5  // fstat
            || nr == 7  // poll
            || nr == 231  // exit_group
            || nr == 218  // set_tid_address
            || nr == 273  // set_robust_list
            || nr == 35  // nanosleep
            || nr == 228  // clock_gettime
            || nr == 230  // clock_nanosleep
            || nr == 204  // sched_getaffinity
            || nr == 234  // tgkill
            || nr == 131  // sigaltstack
            || nr == 13  // rt_sigaction
            || nr == 14  // rt_sigprocmask
            || nr == 15  // rt_sigreturn
            || nr == 63  // uname
            || nr == 97  // getrlimit
            || nr == 302  // prlimit64
            || nr == 39  // getpid
            || nr == 186  // gettid
            || nr == 99  // sysinfo
            || nr == 202  // futex
            || nr == 11  // munmap
            || nr == 12  // brk
            || nr == 21  // access
            || nr == 158  // arch_prctl
            || nr == 334  // rseq
            || nr == 59  // execve
            || nr == 9  // mmap
            || nr == 10  // mprotect
            || nr == 157  // prctl
            || nr == 318  // getrandom
            || nr == 319  // memfd_create
            || nr == 435  // clone3
            || nr == 61  // wait4
            || nr == 332  // statx
            || nr == 138  // fstatfs
            || nr == 439  // faccessat2
        ),
{
}

/// The names of the sandbox's table, number by number; every number outside
/// the table has none.
pub proof fn syscall_names_by_number(nr: u64)
    ensures
        known_syscall_name(79) == Some("getcwd"),
        known_syscall_name(72) == Some("fcntl"),
        known_syscall_name(16) == Some("ioctl"),
        known_syscall_name(258) == Some("mkdirat"),
        known_syscall_name(137) == Some("fstatfs"),
        known_syscall_name(138) == Some("fstatfs"),
        known_syscall_name(269) == Some("faccessat"),
        known_syscall_name(257) == Some("openat"),
        known_syscall_name(3) == Some("close"),
        known_syscall_name(8) == Some("lseek"),
        known_syscall_name(0) == Some("read"),
        known_syscall_name(1) == Some("write"),
        known_syscall_name(17) == Some("pread64"),
        known_syscall_name(271) == Some("ppoll"),
        known_syscall_name(267) == Some("readlinkat"),
        known_syscall_name(262) == Some("newfstatat"),
        known_syscall_name(5) == Some("fstat"),
        known_syscall_name(7) == Some("poll"),
        known_syscall_name(231) == Some("exit_group"),
        known_syscall_name(218) == Some("set_tid_address"),
        known_syscall_name(273) == Some("set_robust_list"),
        known_syscall_name(35) == Some("nanosleep"),
        known_syscall_name(228) == Some("clock_gettime"),
        known_syscall_name(230) == Some("clock_nanosleep"),
        known_syscall_name(204) == Some("sched_getaffinity"),
        known_syscall_name(234) == Some("tgkill"),
        known_syscall_name(131) == Some("sigaltstack"),
        known_syscall_name(13) == Some("rt_sigaction"),
        known_syscall_name(14) == Some("rt_sigprocmask"),
        known_syscall_name(15) == Some("rt_sigreturn"),
        known_syscall_name(63) == Some("uname"),
        known_syscall_name(97) == Some("getrlimit"),
        known_syscall_name(302) == Some("prlimit64"),
        known_syscall_name(39) == Some("getpid"),
        known_syscall_name(186) == Some("gettid"),
        known_syscall_name(99) == Some("sysinfo"),
        known_syscall_name(202) == Some("futex"),
        known_syscall_name(11) == Some("munmap"),
        known_syscall_name(12) == Some("brk"),
        known_syscall_name(21) == Some("access"),
        known_syscall_name(158) == Some("arch_prctl"),
        known_syscall_name(334) == Some("rseq"),
        known_syscall_name(59) == Some("execve"),
        known_syscall_name(9) == Some("mmap"),
        known_syscall_name(10) == Some("mprotect"),
        known_syscall_name(157) == Some("prctl"),
        known_syscall_name(318) == Some("getrandom"),
        known_syscall_name(319) == Some("memfd_create"),
        known_syscall_name(435) == Some("clone3"),
        known_syscall_name(61) == Some("wait4"),
        known_syscall_name(332) == Some("statx"),
        known_syscall_name(439) == Some("faccessat2"),
        !(nr == 79 || nr == 72 || nr == 16 || nr == 258 || nr == 137 || nr == 138 || nr == 269 || nr == 257 || nr == 3 || nr == 8 || nr == 0 || nr == 1 || nr == 17 || nr == 271 || nr == 267 || nr == 262 || nr == 5 || nr == 7 || nr == 231 || nr == 218 || nr == 273 || nr == 35 || nr == 228 || nr == 230 || nr == 204 || nr == 234 || nr == 131 || nr == 13 || nr == 14 || nr == 15 || nr == 63 || nr == 97 || nr == 302 || nr == 39 || nr == 186 || nr == 99 || nr == 202 || nr == 11 || nr == 12 || nr == 21 || nr == 158 || nr == 334 || nr == 59 || nr == 9 || nr == 10 || nr == 157 || nr == 318 || nr == 319 || nr == 435 || nr == 61 || nr == 332 || nr == 439) ==> known_syscall_name(nr) is None,
{
}

} // verus!
