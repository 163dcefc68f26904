# rust_container

A sandbox that runs a program under `ptrace`, lets through only an allowlist of
syscalls, answers clock reads, sleeps and `getrandom` itself (so that a run is
deterministic: virtual time moves only when a process sleeps), and schedules the
whole tree of traced processes on one virtual clock.

Layout:

- `src/` is the verified library (Verus). It decides, the caller acts:
  - `sandbox`: the syscall name table and allowlist keyed by number, and the
    record kept for each traced process;
  - `status`: decoding of `waitpid` status words (through `libc`);
  - `syscalls_x86_64`, `syscalls_aarch64`: the allowlists and syscall names of
    each architecture (names from the `syscalls` crate), and on x86_64 what to do
    at each syscall entry and exit stop;
  - `clock`: virtual instants, the `timespec` a clock read is answered with, the
    end of a sleep, and the bytes that stand in for randomness;
  - `memory`: word-by-word reading and writing of a tracee's memory;
  - `vdso`: the walk over a new program's stack that turns its vDSO off;
  - `driver`: the scheduler.
- `app/` is the program: `fork`/`exec`, every `ptrace` and `waitpid` call, and
  the loops that feed their results to the library.
- `tests/` runs the library on concrete inputs.
