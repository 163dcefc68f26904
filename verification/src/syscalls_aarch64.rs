//! The syscall table of the sandbox on aarch64, and the syscall arguments it reads
//! from a stopped tracee's registers there.
use vstd::prelude::*;
use syscalls::aarch64::Sysno;

verus! {

/// The aarch64 syscall table of the `syscalls` crate.
#[verifier::external_type_specification]
#[verifier::external_body]
pub struct ExArmSysno(Sysno);

/// What `syscalls::aarch64::Sysno::new` returns for a number: the syscall with
/// that number, where the table has one.
pub uninterp spec fn aarch64_sysno_of(nr: usize) -> Option<Sysno>;

/// What `syscalls::aarch64::Sysno::name` returns: the syscall's name.
pub uninterp spec fn aarch64_sysno_name(sysno: Sysno) -> Seq<char>;

/// The numbers that the aarch64 table of the `syscalls` crate holds a syscall for.
pub open spec fn aarch64_syscall_number(nr: usize) -> bool {
    nr <= 243 || (260 <= nr && nr <= 294) || (403 <= nr && nr <= 414) || (416 <= nr && nr <= 461)
}

/// `syscalls::aarch64::Sysno::new`: the syscall with number `nr`, or `None`; the
/// table has a syscall for exactly the numbers of `aarch64_syscall_number`.
#[verifier::external_body]
fn sysno_new(nr: usize) -> (sysno: Option<Sysno>)
    ensures
        sysno == aarch64_sysno_of(nr),
        sysno is Some <==> aarch64_syscall_number(nr),
{
    Sysno::new(nr)
}

/// `syscalls::aarch64::Sysno::name`: the name of a syscall, which is never
/// `"unknown"` (no syscall of the table has that name).
#[verifier::external_body]
fn sysno_name(sysno: &Sysno) -> (name: &'static str)
    ensures
        name@ == aarch64_sysno_name(*sysno),
        name@ != "unknown"@,
{
    sysno.name()
}

/// The name of aarch64 syscall `nr`, or `"unknown"` where there is none.
pub open spec fn aarch64_syscall_name(nr: u64) -> Seq<char> {
    match aarch64_sysno_of(nr as usize) {
        Some(s) => aarch64_sysno_name(s),
        None => "unknown"@,
    }
}

/// Returns the name of aarch64 syscall `nr`, or `"unknown"` for a number that
/// names no syscall.
pub fn syscall_name(nr: u64) -> (name: &'static str)
    ensures
        name@ == aarch64_syscall_name(nr),
        (name@ == "unknown"@) <==> !aarch64_syscall_number(nr as usize),
{
    match sysno_new(nr as usize) {
        Some(s) => sysno_name(&s),
        None => {
            proof {
                reveal_strlit("unknown");
            }
            "unknown"
        },
    }
}

/// The aarch64 syscalls that a sandboxed process may make, by number.
pub open spec fn allowed_syscalls() -> Set<u64> {
    set![
        17, 25, 29, 44, 48, 56,  // getcwd, fcntl, ioctl, fstatfs, faccessat, openat
        57, 62, 63, 64, 65, 66,  // close, lseek, read, write, readv, writev
        67, 73, 78, 79, 80, 94,  // pread64, ppoll, readlinkat, fstatat, fstat, exit_group
        96, 99, 101, 113, 115, 123,  // set_tid_address, set_robust_list, nanosleep, clock_gettime, clock_nanosleep, sched_getaffinity
        131, 132, 134, 135, 139, 160,  // tgkill, sigaltstack, rt_sigaction, rt_sigprocmask, rt_sigreturn, uname
        163, 261, 172, 178, 179, 98,  // getrlimit, prlimit64, getpid, gettid, sysinfo, futex
        215, 214, 220, 221, 281, 222,  // munmap, brk, clone, execve, execveat, mmap
        226, 167, 278, 279, 435, 260,  // mprotect, prctl, getrandom, memfd_create, clone3, wait4
        291, 173, 174, 176, 175, 177,  // statx, getppid, getuid, getgid, geteuid, getegid
        146, 144, 61, 23, 24, 59,  // setuid, setgid, getdents64, dup, dup3, pipe2
        46, 52, 55, 198, 203, 202,  // ftruncate, fchmod, fchown, socket, connect, accept
        208, 209, 293, 169, 233, 93,  // setsockopt, getsockopt, rseq, gettimeofday, madvise, exit
        439,  // faccessat2
    ]
}

/// Whether a sandboxed process may make aarch64 syscall `nr`.
pub open spec fn syscall_allowed(nr: u64) -> bool {
    allowed_syscalls().contains(nr)
}

/// Every syscall on the allowlist is one that the aarch64 table knows: its
/// name, by `syscall_name`, is not `"unknown"`.
pub proof fn allowed_syscalls_are_known(nr: u64)
    requires
        syscall_allowed(nr),
    ensures
        aarch64_syscall_number(nr as usize),
{
}

/// Whether a sandboxed process may make aarch64 syscall `nr`: a number that
/// names no syscall is refused, and so is every syscall off the allowlist.
pub fn is_allowed(nr: u64) -> (allowed: bool)
    ensures
        allowed == syscall_allowed(nr),
{
    match sysno_new(nr as usize) {
        None => false,
        Some(_) => match nr {
            17 | 25 | 29 | 44 | 48 | 56 | 57 | 62 | 63 | 64
        | 65 | 66 | 67 | 73 | 78 | 79 | 80 | 94 | 96 | 99
        | 101 | 113 | 115 | 123 | 131 | 132 | 134 | 135 | 139 | 160
        | 163 | 261 | 172 | 178 | 179 | 98 | 215 | 214 | 220 | 221
        | 281 | 222 | 226 | 167 | 278 | 279 | 435 | 260 | 291 | 173
        | 174 | 176 | 175 | 177 | 146 | 144 | 61 | 23 | 24 | 59
        | 46 | 52 | 55 | 198 | 203 | 202 | 208 | 209 | 293 | 169
        | 233 | 93 | 439 => true,
            _ => false,
        },
    }
}

/// A syscall as a stopped tracee makes it: its number, where the aarch64 table
/// knows it, and its six arguments (`x0` to `x5`).
#[derive(Debug, Clone, Copy, PartialEq, Eq)]
pub struct SyscallArgs {
    pub sysno: Option<u64>,
    pub args: [u64; 6],
}

/// The syscall that registers show: `nr` is what `NT_ARM_SYSTEM_CALL` reported,
/// -1 where there is no syscall; `regs` begins with `x0` to `x5`.
pub fn syscall_args_from_registers(regs: &Vec<u64>, nr: i32) -> (call: SyscallArgs)
    requires
        regs@.len() >= 6,
    ensures
        call.sysno == (if nr == -1 || aarch64_sysno_of(nr as u64 as usize) is None {
            None
        } else {
            Some(nr as u64)
        }),
        call.args@ == regs@.take(6),
{
    let sysno = if nr == -1 {
        None
    } else {
        let n = nr as u64;
        match sysno_new(n as usize) {
            Some(_) => Some(n),
            None => None,
        }
    };
    let args = [regs[0], regs[1], regs[2], regs[3], regs[4], regs[5]];
    assert(args@ =~= regs@.take(6));
    SyscallArgs { sysno, args }
}

/// The aarch64 allowlist, syscall by syscall: exactly these numbers may be made
/// (each named as the kernel names it); every other number is refused.
pub proof fn allowlist_by_number(nr: u64)
    ensures
        syscall_allowed(nr) <==> (
            nr == 17  // getcwd
            || nr == 25  // fcntl
            || nr == 29  // ioctl
            || nr == 44  // fstatfs
            || nr == 48  // faccessat
            || nr == 56  // openat
            || nr == 57  // close
            || nr == 62  // lseek
            || nr == 63  // read
            || nr == 64  // write
            || nr == 65  // readv
            || nr == 66  // writev
            || nr == 67  // pread64
            || nr == 73  // ppoll
            || nr == 78  // readlinkat
            || nr == 79  // fstatat
            || nr == 80  // fstat
            || nr == 94  // exit_group
            || nr == 96  // set_tid_address
            || nr == 99  // set_robust_list
            || nr == 101  // nanosleep
            || nr == 113  // clock_gettime
            || nr == 115  // clock_nanosleep
            || nr == 123  // sched_getaffinity
            || nr == 131  // tgkill
            || nr == 132  // sigaltstack
            || nr == 134  // rt_sigaction
            || nr == 135  // rt_sigprocmask
            || nr == 139  // rt_sigreturn
            || nr == 160  // uname
            || nr == 163  // getrlimit
            || nr == 261  // prlimit64
            || nr == 172  // getpid
            || nr == 178  // gettid
            || nr == 179  // sysinfo
            || nr == 98  // futex
            || nr == 215  // munmap
            || nr == 214  // brk
            || nr == 220  // clone
            || nr == 221  // execve
            || nr == 281  // execveat
            || nr == 222  // mmap
            || nr == 226  // mprotect
            || nr == 167  // prctl
            || nr == 278  // getrandom
            || nr == 279  // memfd_create
            || nr == 435  // clone3
            || nr == 260  // wait4
            || nr == 291  // statx
            || nr == 173  // getppid
            || nr == 174  // getuid
            || nr == 176  // getgid
            || nr == 175  // geteuid
            || nr == 177  // getegid
            || nr == 146  // setuid
            || nr == 144  // setgid
            || nr == 61  // getdents64
            || nr == 23  // dup
            || nr == 24  // dup3
            || nr == 59  // pipe2
            || nr == 46  // ftruncate
            || nr == 52  // fchmod
            || nr == 55  // fchown
            || nr == 198  // socket
            || nr == 203  // connect
            || nr == 202  // accept
            || nr == 208  // setsockopt
            || nr == 209  // getsockopt
            || nr == 293  // rseq
            || nr == 169  // gettimeofday
            || nr == 233  // madvise
            || nr == 93  // exit
            || nr == 439  // faccessat2
        ),
{
}

} // verus!
