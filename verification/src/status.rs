//! Decoding of the status word that `waitpid` reports for a traced process.
use vstd::prelude::*;

verus! {

/// `libc::WIFEXITED` on Linux: the low seven bits of the status are zero.
#[verifier::external_body]
fn wifexited(status: i32) -> (r: bool)
    ensures
        r == (status & 0x7f == 0),
{
    libc::WIFEXITED(status)
}

/// `libc::WEXITSTATUS` on Linux: bits 8 to 15 of the status.
#[verifier::external_body]
fn wexitstatus(status: i32) -> (r: i32)
    ensures
        r == (status >> 8) & 0xff,
{
    libc::WEXITSTATUS(status)
}

/// `libc::WIFSIGNALED` on Linux: `((status & 0x7f) + 1) as i8 >= 2`, that is, the
/// low seven bits are neither zero nor `0x7f`.
#[verifier::external_body]
fn wifsignaled(status: i32) -> (r: bool)
    ensures
        r == (status & 0x7f != 0 && status & 0x7f != 0x7f),
{
    libc::WIFSIGNALED(status)
}

/// `libc::WTERMSIG` on Linux: the low seven bits of the status.
#[verifier::external_body]
fn wtermsig(status: i32) -> (r: i32)
    ensures
        r == status & 0x7f,
{
    libc::WTERMSIG(status)
}

/// `libc::WIFSTOPPED` on Linux: the low byte of the status is `0x7f`.
#[verifier::external_body]
fn wifstopped(status: i32) -> (r: bool)
    ensures
        r == (status & 0xff == 0x7f),
{
    libc::WIFSTOPPED(status)
}

/// `libc::WSTOPSIG` on Linux: bits 8 to 15 of the status.
#[verifier::external_body]
fn wstopsig(status: i32) -> (r: i32)
    ensures
        r == (status >> 8) & 0xff,
{
    libc::WSTOPSIG(status)
}

/// `libc::PTRACE_EVENT_FORK`, which is 1 on Linux.
#[verifier::external_body]
fn ptrace_event_fork() -> (r: i32)
    ensures
        r == 1,
{
    libc::PTRACE_EVENT_FORK
}

/// `libc::PTRACE_EVENT_VFORK`, which is 2 on Linux.
#[verifier::external_body]
fn ptrace_event_vfork() -> (r: i32)
    ensures
        r == 2,
{
    libc::PTRACE_EVENT_VFORK
}

/// `libc::PTRACE_EVENT_CLONE`, which is 3 on Linux.
#[verifier::external_body]
fn ptrace_event_clone() -> (r: i32)
    ensures
        r == 3,
{
    libc::PTRACE_EVENT_CLONE
}

/// `libc::SIGTRAP`, which is 5 on Linux.
#[verifier::external_body]
fn sigtrap() -> (r: i32)
    ensures
        r == 5,
{
    libc::SIGTRAP
}

/// What a wait status says about the traced process.
#[derive(Debug, Clone, Copy, PartialEq, Eq)]
pub enum WaitEvent {
    /// The process is gone: it exited with this code, or was killed by a
    /// signal, given negated.
    Exit(i32),
    /// The process forked, vforked or cloned; the new process is to be traced too.
    NewChild,
    /// The process stopped at a syscall entry or exit (`SIGTRAP | 0x80`).
    SyscallStop,
    /// Any other stop, which the sandbox passes over.
    Other,
}

/// The stop signal that marks a syscall stop when `PTRACE_O_TRACESYSGOOD` is set.
pub open spec fn syscall_stop_signal() -> i32 {
    5 | 0x80
}

/// How a wait status is read, in the order in which the sandbox tests it.
pub open spec fn wait_event_of(status: i32) -> WaitEvent {
    if status & 0x7f == 0 {
        WaitEvent::Exit((status >> 8) & 0xff)
    } else if status & 0x7f != 0x7f {
        WaitEvent::Exit((-(status & 0x7f)) as i32)
    } else if status >> 16 == 1 || status >> 16 == 2 || status >> 16 == 3 {
        WaitEvent::NewChild
    } else if status & 0xff == 0x7f && (status >> 8) & 0xff == syscall_stop_signal() {
        WaitEvent::SyscallStop
    } else {
        WaitEvent::Other
    }
}

/// Classifies a wait status: exit, death by a signal, a new child, a syscall stop or
/// anything else.
pub fn classify_wait_status(status: i32) -> (event: WaitEvent)
    ensures
        event == wait_event_of(status),
{
    if wifexited(status) {
        return WaitEvent::Exit(wexitstatus(status));
    }
    if wifsignaled(status) {
        let sig = wtermsig(status);
        assert(0 <= status & 0x7f <= 0x7f) by (bit_vector);
        return WaitEvent::Exit(-sig);
    }
    let event_kind = status >> 16;
    if event_kind == ptrace_event_fork() || event_kind == ptrace_event_clone()
        || event_kind == ptrace_event_vfork() {
        return WaitEvent::NewChild;
    }
    let trap = sigtrap();
    assert(5i32 | 0x80i32 == 0x85i32) by (bit_vector);
    if wifstopped(status) && wstopsig(status) == (trap | 0x80) {
        return WaitEvent::SyscallStop;
    }
    WaitEvent::Other
}

/// A process that exited with status byte `code` is reported as exiting with
/// exactly `code`, for every byte from 0 to 255.
pub proof fn exit_status_carries_the_whole_byte(code: i32)
    requires
        0 <= code <= 255,
    ensures
        wait_event_of(code << 8) == WaitEvent::Exit(code),
{
    assert((code << 8) & 0x7f == 0 && ((code << 8) >> 8) & 0xff == code) by (bit_vector)
        requires
            0 <= code <= 255,
    ;
}

/// A process killed by signal `sig` (with or without a core dump, flag 0x80) is
/// reported as exiting with `-sig`, for every signal from 1 to 126.
pub proof fn death_by_signal_is_negated(sig: i32, core: bool)
    requires
        1 <= sig <= 126,
    ensures
        wait_event_of(if core { sig | 0x80 } else { sig }) == WaitEvent::Exit((0 - sig) as i32),
{
    assert((sig | 0x80) & 0x7f == sig && sig & 0x7f == sig) by (bit_vector)
        requires
            1 <= sig <= 126,
    ;
}

/// A ptrace event stop (`SIGTRAP`, event number `event` in bits 16 to 23) is a
/// new child exactly for the fork, vfork and clone events (1, 2, 3), and is
/// otherwise passed over; a stop with `SIGTRAP | 0x80` and no event is a
/// syscall stop.
pub proof fn trap_stops_by_event(event: i32)
    requires
        0 <= event <= 255,
    ensures
        wait_event_of((event << 16) | 0x57f) == if event == 1 || event == 2 || event == 3 {
            WaitEvent::NewChild
        } else {
            WaitEvent::Other
        },
        wait_event_of(0x857f) == WaitEvent::SyscallStop,
{
    let status = (event << 16) | 0x57f;
    assert(status & 0x7f == 0x7f && status & 0xff == 0x7f && (status >> 8) & 0xff == 5
        && status >> 16 == event) by (bit_vector)
        requires
            0 <= event <= 255,
            status == (event << 16) | 0x57f,
    ;
    assert(0x857fi32 & 0x7f == 0x7f && 0x857fi32 & 0xff == 0x7f && (0x857fi32 >> 8) & 0xff
        == 0x85 && 0x857fi32 >> 16 == 0) by (bit_vector);
    assert(5i32 | 0x80i32 == 0x85i32) by (bit_vector);
}

} // verus!
