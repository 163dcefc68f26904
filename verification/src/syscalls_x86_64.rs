//! The syscall handling of the sandbox on x86_64: which syscalls a traced
//! process may make, and what the sandbox does at each syscall stop.
//!
//! At an entry stop the sandbox reads the tracee's `user_regs_struct` into a
//! buffer of 64 words, of which the kernel fills the first `reg_count`; at an
//! exit stop it reads the same buffer again. The functions here decide from
//! those registers; the caller reads and writes registers and memory.
use vstd::prelude::*;
use syscalls::x86_64::Sysno;
use crate::clock::{timespec_bytes, timespec_of, MAX_INSTANT_NS};
use crate::sandbox::SandboxedProcess;

verus! {

/// The x86_64 syscall table of the `syscalls` crate.
#[verifier::external_type_specification]
#[verifier::external_body]
pub struct ExX86Sysno(Sysno);

/// What `syscalls::x86_64::Sysno::new` returns for a number: the syscall with
/// that number, where the table has one.
pub uninterp spec fn x86_64_sysno_of(nr: usize) -> Option<Sysno>;

/// What `syscalls::x86_64::Sysno::name` returns: the syscall's name.
pub uninterp spec fn x86_64_sysno_name(sysno: Sysno) -> Seq<char>;

/// The numbers that the x86_64 table of the `syscalls` crate holds a syscall for.
pub open spec fn x86_64_syscall_number(nr: usize) -> bool {
    nr <= 334 || (424 <= nr && nr <= 461)
}

/// `syscalls::x86_64::Sysno::new`: the syscall with number `nr`, or `None`; the
/// table has a syscall for exactly the numbers of `x86_64_syscall_number`.
#[verifier::external_body]
fn sysno_new(nr: usize) -> (sysno: Option<Sysno>)
    ensures
        sysno == x86_64_sysno_of(nr),
        sysno is Some <==> x86_64_syscall_number(nr),
{
    Sysno::new(nr)
}

/// `syscalls::x86_64::Sysno::name`: the name of a syscall, which is never
/// `"unknown"` (no syscall of the table has that name).
#[verifier::external_body]
fn sysno_name(sysno: &Sysno) -> (name: &'static str)
    ensures
        name@ == x86_64_sysno_name(*sysno),
        name@ != "unknown"@,
{
    sysno.name()
}

/// The name of x86_64 syscall `nr`, or `"unknown"` where there is none.
pub open spec fn x86_64_syscall_name(nr: u64) -> Seq<char> {
    match x86_64_sysno_of(nr as usize) {
        Some(s) => x86_64_sysno_name(s),
        None => "unknown"@,
    }
}

/// Returns the name of x86_64 syscall `nr`, or `"unknown"` for a number that
/// names no syscall.
pub fn syscall_name(nr: u64) -> (name: &'static str)
    ensures
        name@ == x86_64_syscall_name(nr),
        (name@ == "unknown"@) <==> !x86_64_syscall_number(nr as usize),
{
    match sysno_new(nr as usize) {
        Some(s) => sysno_name(&s),
        None => {
            proof {
                reveal_strlit("unknown");
            }
            "unknown"
        },
    }
}

/// The x86_64 syscalls that a sandboxed process may make, by number.
pub open spec fn allowed_syscalls() -> Set<u64> {
    set![
        79, 72, 16, 258, 138, 269,  // getcwd, fcntl, ioctl, mkdirat, fstatfs, faccessat
        257, 2, 3, 8, 0, 1,  // openat, open, close, lseek, read, write
        17, 271, 267, 262, 5, 7,  // pread64, ppoll, readlinkat, newfstatat, fstat, poll
        231, 218, 273, 35, 228, 230,  // exit_group, set_tid_address, set_robust_list, nanosleep, clock_gettime, clock_nanosleep
        204, 234, 131, 13, 14, 15,  // sched_getaffinity, tgkill, sigaltstack, rt_sigaction, rt_sigprocmask, rt_sigreturn
        63, 97, 302, 39, 186, 99,  // uname, getrlimit, prlimit64, getpid, gettid, sysinfo
        202, 11, 12, 21, 158, 334,  // futex, munmap, brk, access, arch_prctl, rseq
        59, 9, 10, 157, 318, 319,  // execve, mmap, mprotect, prctl, getrandom, memfd_create
        435, 61, 332, 201, 41, 42,  // clone3, wait4, statx, time, socket, connect
        43, 54, 55, 110, 102, 104,  // accept, setsockopt, getsockopt, getppid, getuid, getgid
        107, 108, 105, 106, 217, 78,  // geteuid, getegid, setuid, setgid, getdents64, getdents
        32, 33, 292, 22, 293, 77,  // dup, dup2, dup3, pipe, pipe2, ftruncate
        92, 93, 90, 91, 80, 81,  // chown, fchown, chmod, fchmod, chdir, fchdir
        85, 86, 265, 88, 266, 89,  // creat, link, linkat, symlink, symlinkat, readlink
        28, 60, 247,  // madvise, exit, waitid
        439,  // faccessat2
    ]
}

/// Whether a sandboxed process may make x86_64 syscall `nr`.
pub open spec fn syscall_allowed(nr: u64) -> bool {
    allowed_syscalls().contains(nr)
}

/// Every syscall on the allowlist is one that the x86_64 table knows: its
/// name, by `syscall_name`, is not `"unknown"`.
pub proof fn allowed_syscalls_are_known(nr: u64)
    requires
        syscall_allowed(nr),
    ensures
        x86_64_syscall_number(nr as usize),
{
}

/// Whether a sandboxed process may make x86_64 syscall `nr`: a number that names
/// no syscall is refused, and so is every syscall off the allowlist.
pub fn is_allowed(nr: u64) -> (allowed: bool)
    ensures
        allowed == syscall_allowed(nr),
{
    match sysno_new(nr as usize) {
        None => false,
        Some(_) => match nr {
            79 | 72 | 16 | 258 | 138 | 269 | 257 | 2 | 3 | 8
        | 0 | 1 | 17 | 271 | 267 | 262 | 5 | 7 | 231 | 218
        | 273 | 35 | 228 | 230 | 204 | 234 | 131 | 13 | 14 | 15
        | 63 | 97 | 302 | 39 | 186 | 99 | 202 | 11 | 12 | 21
        | 158 | 334 | 59 | 9 | 10 | 157 | 318 | 319 | 435 | 61
        | 332 | 201 | 41 | 42 | 43 | 54 | 55 | 110 | 102 | 104
        | 107 | 108 | 105 | 106 | 217 | 78 | 32 | 33 | 292 | 22
        | 293 | 77 | 92 | 93 | 90 | 91 | 80 | 81 | 85 | 86
        | 265 | 88 | 266 | 89 | 28 | 60 | 247 | 439 => true,
            _ => false,
        },
    }
}

/// x86_64 syscall numbers that the sandbox treats specially.
pub const SYS_WRITE: u64 = 1;
pub const SYS_OPENAT: u64 = 257;
pub const SYS_NANOSLEEP: u64 = 35;
pub const SYS_CLOCK_GETTIME: u64 = 228;
pub const SYS_CLOCK_NANOSLEEP: u64 = 230;
pub const SYS_GETRANDOM: u64 = 318;
pub const SYS_WAIT4: u64 = 61;
pub const SYS_WAITID: u64 = 247;
pub const SYS_EXECVE: u64 = 59;

/// Word indices in `user_regs_struct`.
pub const REG_R10: usize = 7;
pub const REG_RAX: usize = 10;
pub const REG_RDX: usize = 12;
pub const REG_RSI: usize = 13;
pub const REG_RDI: usize = 14;
pub const REG_ORIG_RAX: usize = 15;
pub const REG_RSP: usize = 19;

/// How many words the register buffer holds.
pub const REG_BUFFER_WORDS: usize = 64;

/// The syscall number that makes the kernel skip a syscall.
pub const SKIPPED_SYSCALL: u64 = 0xFFFF_FFFF_FFFF_FFFF;

/// The largest `write` that the sandbox shows, exclusive.
pub const WRITE_SHOW_LIMIT: u64 = 1000000;

/// How many bytes of a shown `write` are printed as escapes.
pub const WRITE_ESCAPE_LIMIT: u64 = 128;

/// How long a path the sandbox reads for `openat`.
pub const PATH_READ_LIMIT: usize = 4096;

/// What the caller does at a syscall entry stop.
#[derive(Debug)]
pub enum EntryAction {
    /// The kernel reported too few registers: nothing to do.
    Ignore,
    /// The syscall is not allowed: kill the process and fail.
    Forbidden,
    /// Let the syscall run.
    Continue,
    /// Let `openat` run, and show its directory and the path read at `path_addr`.
    ShowOpenat { dirfd: i64, path_addr: u64 },
    /// Let `write` run, and show it: the first `escaped_len` bytes at `addr` as
    /// escapes, and up to `len` bytes there as a string.
    ShowWrite { fd: i32, addr: u64, len: u64, escaped_len: u64 },
    /// Answer `clock_gettime` with the virtual time: write `timespec` at
    /// `timespec_addr` and skip the syscall.
    ReportTime { timespec_addr: u64, timespec: Vec<u8> },
    /// Answer a sleep: read the requested `timespec` at `request_addr`, skip the
    /// syscall, and pause the process until the virtual clock reaches the end of
    /// the sleep.
    Sleep { request_addr: u64 },
    /// Answer `getrandom`: write `len` deterministic bytes at `buf_addr` and skip
    /// the syscall; its return value is `len`.
    FakeRandom { buf_addr: u64, len: u64 },
    /// The process waits for a child: let it run, and tell the scheduler.
    WaitForSubprocess,
}

/// What the caller does at a syscall exit stop.
#[derive(Debug)]
pub enum ExitAction {
    /// Nothing.
    Nothing,
    /// The syscall was skipped: write back these registers, whose `rax` is the
    /// value the sandbox answers with.
    SetRegisters(Vec<u64>),
    /// `execve` succeeded: turn off the vDSO of the new program image.
    DisableVdso,
}

/// Whether the sandbox shows a `write` to this descriptor of this length.
pub open spec fn write_shown(fd: i32, len: u64) -> bool {
    0 <= fd <= 2 && 0 < len < WRITE_SHOW_LIMIT
}

/// How many bytes of a shown write of `len` bytes are printed as escapes.
pub open spec fn escaped_length(len: u64) -> u64 {
    if len > WRITE_ESCAPE_LIMIT {
        WRITE_ESCAPE_LIMIT
    } else {
        len
    }
}

/// The register buffer with the syscall number replaced by the skip marker.
pub open spec fn skipped(regs: Seq<u64>) -> Seq<u64> {
    regs.update(REG_ORIG_RAX as int, SKIPPED_SYSCALL)
}

/// A copy of the register buffer with word `index` replaced by `value`.
fn with_register(regs: &Vec<u64>, index: usize, value: u64) -> (out: Vec<u64>)
    requires
        index < regs@.len(),
    ensures
        out@ == regs@.update(index as int, value),
{
    let mut out: Vec<u64> = Vec::new();
    let mut i: usize = 0;
    while i < regs.len()
        invariant
            i <= regs@.len(),
            out@ == regs@.take(i as int),
        decreases regs@.len() - i,
    {
        out.push(regs[i]);
        assert(regs@.take(i + 1) =~= regs@.take(i as int).push(regs@[i as int]));
        i = i + 1;
    }
    assert(regs@.take(regs@.len() as int) =~= regs@);
    out.set(index, value);
    out
}

/// The register buffer, written back at a syscall entry, that makes the kernel
/// skip the syscall.
pub fn skip_registers(regs: &Vec<u64>) -> (skipping: Vec<u64>)
    requires
        regs@.len() == REG_BUFFER_WORDS,
    ensures
        skipping@ == skipped(regs@),
{
    with_register(regs, REG_ORIG_RAX, SKIPPED_SYSCALL)
}

/// The return value recorded for a skipped syscall after an entry stop: the
/// length of an answered `getrandom`, and otherwise what was recorded before.
pub open spec fn skipped_value_after_entry(prev: Option<u64>, regs: Seq<u64>, reg_count: int) -> Option<u64> {
    if reg_count > REG_ORIG_RAX && syscall_allowed(regs[REG_ORIG_RAX as int])
        && regs[REG_ORIG_RAX as int] == SYS_GETRANDOM {
        Some(regs[REG_RSI as int])
    } else {
        prev
    }
}

/// What a skipped syscall returns, given the value recorded at its entry: that
/// value, or 0 where none was recorded.
pub open spec fn skipped_return(recorded: Option<u64>) -> u64 {
    match recorded {
        Some(v) => v,
        None => 0,
    }
}

/// A `getrandom` that the sandbox answers returns, at its exit, the number of
/// bytes that were asked for; any other syscall that it skips returns 0 where no
/// value was pending at its entry.
pub proof fn skipped_syscall_return_values(prev: Option<u64>, regs: Seq<u64>, reg_count: int)
    requires
        regs.len() == REG_BUFFER_WORDS,
        reg_count > REG_ORIG_RAX,
        syscall_allowed(regs[REG_ORIG_RAX as int]),
    ensures
        regs[REG_ORIG_RAX as int] == SYS_GETRANDOM ==> skipped_return(
            skipped_value_after_entry(prev, regs, reg_count),
        ) == regs[REG_RSI as int],
        regs[REG_ORIG_RAX as int] != SYS_GETRANDOM && prev is None ==> skipped_return(
            skipped_value_after_entry(prev, regs, reg_count),
        ) == 0,
{
}

impl SandboxedProcess {
    /// Decides what to do at a syscall entry stop, from the registers the kernel
    /// reported (`reg_count` of them) and the virtual time `now_ns`. A `getrandom`
    /// entry records its length as the return value of the skipped syscall. The
    /// next stop is the syscall's exit, unless the syscall is forbidden (the
    /// process is then killed and the stop is not completed).
    pub fn on_syscall_entry(&mut self, regs: &Vec<u64>, reg_count: usize, now_ns: u128) -> (action: EntryAction)
        requires
            regs@.len() == REG_BUFFER_WORDS,
            now_ns <= MAX_INSTANT_NS,
            old(self).spec_is_entry(),
        ensures
            final(self).spec_pid() == old(self).spec_pid(),
            final(self).spec_is_entry() == (action is Forbidden),
            final(self).spec_needs_resume() == old(self).spec_needs_resume(),
            ({
                let nr = regs@[REG_ORIG_RAX as int];
                if reg_count <= REG_ORIG_RAX {
                    action is Ignore
                } else if !syscall_allowed(nr) {
                    action is Forbidden
                } else if nr == SYS_OPENAT {
                    action matches EntryAction::ShowOpenat { dirfd, path_addr }
                        && dirfd == regs@[REG_RDI as int] as i64
                        && path_addr == regs@[REG_RSI as int]
                } else if nr == SYS_WRITE {
                    let fd = regs@[REG_RDI as int] as i32;
                    let len = regs@[REG_RDX as int];
                    if write_shown(fd, len) {
                        action matches EntryAction::ShowWrite { fd: f, addr, len: l, escaped_len }
                            && f == fd && addr == regs@[REG_RSI as int] && l == len
                            && escaped_len == escaped_length(len)
                    } else {
                        action is Continue
                    }
                } else if nr == SYS_CLOCK_GETTIME {
                    action matches EntryAction::ReportTime { timespec_addr, timespec }
                        && timespec_addr == regs@[REG_RSI as int]
                        && timespec@ == timespec_of(now_ns)
                } else if nr == SYS_NANOSLEEP {
                    action matches EntryAction::Sleep { request_addr }
                        && request_addr == regs@[REG_RDI as int]
                } else if nr == SYS_CLOCK_NANOSLEEP {
                    action matches EntryAction::Sleep { request_addr }
                        && request_addr == regs@[REG_RDX as int]
                } else if nr == SYS_GETRANDOM {
                    action matches EntryAction::FakeRandom { buf_addr, len }
                        && buf_addr == regs@[REG_RDI as int]
                        && len == regs@[REG_RSI as int]
                } else if nr == SYS_WAIT4 || nr == SYS_WAITID {
                    action is WaitForSubprocess
                } else {
                    action is Continue
                }
            }),
            final(self).spec_skipped_return_value() == skipped_value_after_entry(
                old(self).spec_skipped_return_value(),
                regs@,
                reg_count as int,
            ),
    {
        if reg_count <= REG_ORIG_RAX {
            self.complete_syscall_stop();
            return EntryAction::Ignore;
        }
        let nr = regs[REG_ORIG_RAX];
        if !is_allowed(nr) {
            return EntryAction::Forbidden;
        }
        self.complete_syscall_stop();
        if nr == SYS_OPENAT {
            EntryAction::ShowOpenat { dirfd: regs[REG_RDI] as i64, path_addr: regs[REG_RSI] }
        } else if nr == SYS_WRITE {
            let fd = regs[REG_RDI] as i32;
            let len = regs[REG_RDX];
            if fd >= 0 && fd <= 2 && len > 0 && len < WRITE_SHOW_LIMIT {
                let escaped_len = if len > WRITE_ESCAPE_LIMIT {
                    WRITE_ESCAPE_LIMIT
                } else {
                    len
                };
                EntryAction::ShowWrite { fd, addr: regs[REG_RSI], len, escaped_len }
            } else {
                EntryAction::Continue
            }
        } else if nr == SYS_CLOCK_GETTIME {
            EntryAction::ReportTime {
                timespec_addr: regs[REG_RSI],
                timespec: timespec_bytes(now_ns),
            }
        } else if nr == SYS_NANOSLEEP {
            EntryAction::Sleep { request_addr: regs[REG_RDI] }
        } else if nr == SYS_CLOCK_NANOSLEEP {
            EntryAction::Sleep { request_addr: regs[REG_RDX] }
        } else if nr == SYS_GETRANDOM {
            let len = regs[REG_RSI];
            self.set_skipped_return_value(Some(len));
            EntryAction::FakeRandom { buf_addr: regs[REG_RDI], len }
        } else if nr == SYS_WAIT4 || nr == SYS_WAITID {
            EntryAction::WaitForSubprocess
        } else {
            EntryAction::Continue
        }
    }

    /// Decides what to do at a syscall exit stop. A skipped syscall returns the
    /// value that its entry recorded, or 0, and the record is cleared; a
    /// successful `execve` calls for the vDSO to be turned off again. The next
    /// stop is a syscall entry.
    pub fn on_syscall_exit(&mut self, regs: &Vec<u64>) -> (action: ExitAction)
        requires
            regs@.len() == REG_BUFFER_WORDS,
            !old(self).spec_is_entry(),
        ensures
            final(self).spec_pid() == old(self).spec_pid(),
            final(self).spec_is_entry(),
            final(self).spec_needs_resume() == old(self).spec_needs_resume(),
            ({
                let nr = regs@[REG_ORIG_RAX as int];
                if nr == SKIPPED_SYSCALL {
                    &&& action matches ExitAction::SetRegisters(r) && r@ == regs@.update(
                        REG_RAX as int,
                        skipped_return(old(self).spec_skipped_return_value()),
                    )
                    &&& final(self).spec_skipped_return_value() is None
                } else {
                    &&& final(self).spec_skipped_return_value()
                        == old(self).spec_skipped_return_value()
                    &&& if nr == SYS_EXECVE && regs@[REG_RAX as int] == 0 {
                        action is DisableVdso
                    } else {
                        action is Nothing
                    }
                }
            }),
    {
        self.complete_syscall_stop();
        let nr = regs[REG_ORIG_RAX];
        if nr == SKIPPED_SYSCALL {
            let value = match self.skipped_return_value() {
                Some(v) => v,
                None => 0,
            };
            self.set_skipped_return_value(None);
            let out = with_register(regs, REG_RAX, value);
            ExitAction::SetRegisters(out)
        } else if nr == SYS_EXECVE && regs[REG_RAX] == 0 {
            ExitAction::DisableVdso
        } else {
            ExitAction::Nothing
        }
    }
}

/// The x86_64 allowlist, syscall by syscall: exactly these numbers may be made
/// (each named as the kernel names it); every other number is refused.
pub proof fn allowlist_by_number(nr: u64)
    ensures
        syscall_allowed(nr) <==> (
            nr == 79  // getcwd
            || nr == 72  // fcntl
            || nr == 16  // ioctl
            || nr == 258  // mkdirat
            || nr == 138  // fstatfs
            || nr == 269  // faccessat
            || nr == 257  // openat
            || nr == 2  // open
            || nr == 3  // close
            || nr == 8  // lseek
            || nr == 0  // read
            || nr == 1  // write
            || nr == 17  // pread64
            || nr == 271  // ppoll
            || nr == 267  // readlinkat
            || nr == 262  // newfstatat
            || nr == 5  // fstat
            || nr == 7  // poll
            || nr == 231  // exit_group
            || nr == 218  // set_tid_address
            || nr == 273  // set_robust_list
            || nr == 35  // nanosleep
            || nr == 228  // clock_gettime
            || nr == 230  // clock_nanosleep
            || nr == 204  // sched_getaffinity
            || nr == 234  // tgkill
            || nr == 131  // sigaltstack
            || nr == 13  // rt_sigaction
            || nr == 14  // rt_sigprocmask
            || nr == 15  // rt_sigreturn
            || nr == 63  // uname
            || nr == 97  // getrlimit
            || nr == 302  // prlimit64
            || nr == 39  // getpid
            || nr == 186  // gettid
            || nr == 99  // sysinfo
            || nr == 202  // futex
            || nr == 11  // munmap
            || nr == 12  // brk
            || nr == 21  // access
            || nr == 158  // arch_prctl
            || nr == 334  // rseq
            || nr == 59  // execve
            || nr == 9  // mmap
            || nr == 10  // mprotect
            || nr == 157  // prctl
            || nr == 318  // getrandom
            || nr == 319  // memfd_create
            || nr == 435  // clone3
            || nr == 61  // wait4
            || nr == 332  // statx
            || nr == 201  // time
            || nr == 41  // socket
            || nr == 42  // connect
            || nr == 43  // accept
            || nr == 54  // setsockopt
            || nr == 55  // getsockopt
            || nr == 110  // getppid
            || nr == 102  // getuid
            || nr == 104  // getgid
            || nr == 107  // geteuid
            || nr == 108  // getegid
            || nr == 105  // setuid
            || nr == 106  // setgid
            || nr == 217  // getdents64
            || nr == 78  // getdents
            || nr == 32  // dup
            || nr == 33  // dup2
            || nr == 292  // dup3
            || nr == 22  // pipe
            || nr == 293  // pipe2
            || nr == 77  // ftruncate
            || nr == 92  // chown
            || nr == 93  // fchown
            || nr == 90  // chmod
            || nr == 91  // fchmod
            || nr == 80  // chdir
            || nr == 81  // fchdir
            || nr == 85  // creat
            || nr == 86  // link
            || nr == 265  // linkat
            || nr == 88  // symlink
            || nr == 266  // symlinkat
            || nr == 89  // readlink
            || nr == 28  // madvise
            || nr == 60  // exit
            || nr == 247  // waitid
            || nr == 439  // faccessat2
        ),
{
}

/// Which writes are shown: every write of 1 to 999 999 bytes to standard input,
/// output or error, and no other; of a shown write, the first 128 bytes at most
/// are printed as escapes.
pub proof fn writes_shown(fd: i32, len: u64)
    ensures
        write_shown(fd, len) <==> ((fd == 0 || fd == 1 || fd == 2) && 1 <= len <= 999_999),
        escaped_length(len) == if len <= 128 { len } else { 128 },
{
}

/// The syscalls that the handler treats specially are the kernel's x86_64
/// numbers, and their arguments are read from the registers of the x86_64
/// syscall convention (`user_regs_struct` word indices): the number from
/// `orig_rax`, the arguments from `rdi`, `rsi`, `rdx`, `r10`, the result in `rax`.
pub proof fn x86_64_syscall_convention()
    ensures
        SYS_WRITE == 1 && SYS_OPENAT == 257 && SYS_NANOSLEEP == 35 && SYS_CLOCK_GETTIME == 228
            && SYS_CLOCK_NANOSLEEP == 230 && SYS_GETRANDOM == 318 && SYS_WAIT4 == 61
            && SYS_WAITID == 247 && SYS_EXECVE == 59,
        REG_R10 == 7 && REG_RAX == 10 && REG_RDX == 12 && REG_RSI == 13 && REG_RDI == 14
            && REG_ORIG_RAX == 15 && REG_RSP == 19,
        SKIPPED_SYSCALL == u64::MAX,
{
}

} // verus!
