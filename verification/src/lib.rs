//! A ptrace-based sandbox: the verified decisions it makes about a traced
//! process (which syscalls it lets through, how it fakes time and randomness,
//! how it schedules several traced processes on one virtual clock).
pub mod sandbox;
pub mod status;
pub mod clock;
pub mod memory;
pub mod vdso;
pub mod syscalls_x86_64;
pub mod syscalls_aarch64;
pub mod driver;

pub use sandbox::{SandboxState, SandboxedProcess};
