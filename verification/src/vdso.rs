//! Turning off the vDSO of a traced process, so that its clock reads go through
//! real syscalls, which the sandbox can answer with virtual time.
//!
//! At program start the stack holds `argc`, the `argv` pointers and a null, the
//! `envp` pointers and a null, then the auxiliary vector of (key, value) pairs.
//! The scan walks past `argv` and `envp`, finds the `AT_SYSINFO_EHDR` entry,
//! zeroes its value, and then zeroes every one of the first 1024 stack words
//! that still holds the vDSO address.
use vstd::prelude::*;

verus! {

/// The auxiliary vector key of the vDSO address.
pub const AT_SYSINFO_EHDR: i64 = 33;

/// How many stack words, from the stack pointer up, are searched for the vDSO address.
pub const STACK_SCAN_WORDS: u64 = 1024;

/// Where the scan stands.
#[derive(Debug, Clone, Copy, PartialEq, Eq)]
pub enum VdsoPhase {
    /// The next peek reads `argc` at the stack pointer.
    ReadArgc,
    /// The next peek reads an `envp` entry at `addr`.
    SkipEnv { addr: u64 },
    /// The next peek reads the key of an auxiliary vector entry at `addr`.
    ReadAuxKey { addr: u64 },
    /// The next peek reads the value, at `addr + 8`, of the entry whose key is at `addr`.
    ReadAuxValue { addr: u64, key: i64 },
    /// The next peek reads stack word `index` in search of `vdso`.
    ScanStack { index: u64, vdso: u64 },
    /// The scan is over.
    Done,
    /// An address computation went past the end of the address space.
    AddressOverflow,
}

/// What the caller does next.
#[derive(Debug, Clone, Copy, PartialEq, Eq)]
pub enum VdsoStep {
    /// Peek the word at this address and hand the result to `on_peek`.
    Peek(u64),
    /// Nothing more to do.
    Done,
    /// Give up: an address went past the end of the address space.
    AddressOverflow,
}

/// The scan of one process's initial stack.
pub struct VdsoScan {
    sp: u64,
    phase: VdsoPhase,
}

/// The address of the next peek in each phase; `None` where the phase makes none,
/// or where computing it overflows.
pub open spec fn peek_address(sp: u64, phase: VdsoPhase) -> Option<u64> {
    match phase {
        VdsoPhase::ReadArgc => Some(sp),
        VdsoPhase::SkipEnv { addr } => Some(addr),
        VdsoPhase::ReadAuxKey { addr } => Some(addr),
        VdsoPhase::ReadAuxValue { addr, key } => if addr + 8 <= u64::MAX {
            Some((addr + 8) as u64)
        } else {
            None
        },
        VdsoPhase::ScanStack { index, vdso } => if sp + 8 * index <= u64::MAX {
            Some((sp + 8 * index) as u64)
        } else {
            None
        },
        _ => None,
    }
}

/// The address `base + delta`, or the overflow phase where it does not fit.
pub open spec fn advance(base: int, delta: int, next: spec_fn(u64) -> VdsoPhase) -> VdsoPhase {
    if 0 <= base + delta <= u64::MAX {
        next((base + delta) as u64)
    } else {
        VdsoPhase::AddressOverflow
    }
}

/// The phase after a peek in `phase` that gave `value`, `failed` telling whether the
/// peek reported an error; and the address whose word is then set to zero, if any.
pub open spec fn after_peek(sp: u64, phase: VdsoPhase, value: i64, failed: bool) -> (
    VdsoPhase,
    Option<u64>,
) {
    match phase {
        VdsoPhase::ReadArgc => if value == -1 {
            (VdsoPhase::Done, None)
        } else {
            (
                advance(
                    sp + 8,
                    (value as u64 + 1) * 8,
                    |a: u64| VdsoPhase::SkipEnv { addr: a },
                ),
                None,
            )
        },
        VdsoPhase::SkipEnv { addr } => if value == -1 && failed {
            (VdsoPhase::Done, None)
        } else if value == 0 || value == -1 {
            (advance(addr as int, 8, |a: u64| VdsoPhase::ReadAuxKey { addr: a }), None)
        } else {
            (advance(addr as int, 8, |a: u64| VdsoPhase::SkipEnv { addr: a }), None)
        },
        VdsoPhase::ReadAuxKey { addr } => if value == 0 || value == -1 {
            (VdsoPhase::Done, None)
        } else if addr + 8 <= u64::MAX {
            (VdsoPhase::ReadAuxValue { addr, key: value }, None)
        } else {
            (VdsoPhase::AddressOverflow, None)
        },
        VdsoPhase::ReadAuxValue { addr, key } => if key == AT_SYSINFO_EHDR {
            (
                if value as u64 != 0 {
                    VdsoPhase::ScanStack { index: 0, vdso: value as u64 }
                } else {
                    VdsoPhase::Done
                },
                Some((addr + 8) as u64),
            )
        } else {
            (advance(addr as int, 16, |a: u64| VdsoPhase::ReadAuxKey { addr: a }), None)
        },
        VdsoPhase::ScanStack { index, vdso } => (
            if index + 1 >= STACK_SCAN_WORDS {
                VdsoPhase::Done
            } else if sp + 8 * (index + 1) <= u64::MAX {
                VdsoPhase::ScanStack { index: (index + 1) as u64, vdso }
            } else {
                VdsoPhase::AddressOverflow
            },
            if value as u64 == vdso {
                Some((sp + 8 * index) as u64)
            } else {
                None
            },
        ),
        _ => (phase, None),
    }
}

/// The scan sets a word to zero only where the vDSO address is: the value slot of
/// the `AT_SYSINFO_EHDR` entry, or one of the first 1024 stack words when that
/// word holds the address.
pub proof fn scan_zeroes_only_vdso_references(sp: u64, phase: VdsoPhase, value: i64, failed: bool)
    requires
        phase matches VdsoPhase::ReadAuxValue { addr, .. } ==> addr + 8 <= u64::MAX,
        phase matches VdsoPhase::ScanStack { index, .. } ==> index < STACK_SCAN_WORDS && sp + 8
            * index <= u64::MAX,
    ensures
        after_peek(sp, phase, value, failed).1 matches Some(a) ==> {
            ||| phase matches VdsoPhase::ReadAuxValue { addr, key } && key == AT_SYSINFO_EHDR && a
                == addr + 8
            ||| phase matches VdsoPhase::ScanStack { index, vdso } && value as u64 == vdso && a == sp
                + 8 * index && index < STACK_SCAN_WORDS
        },
{
}

/// The words that a walk from `phase` sets to zero when its peeks give `values`
/// (each a word and whether the peek failed), in order.
pub open spec fn walk_zeroes(sp: u64, phase: VdsoPhase, values: Seq<(i64, bool)>) -> Set<u64>
    decreases values.len(),
{
    if values.len() == 0 || phase == VdsoPhase::Done || phase == VdsoPhase::AddressOverflow {
        Set::empty()
    } else {
        let (next, zero_at) = after_peek(sp, phase, values[0].0, values[0].1);
        let rest = walk_zeroes(sp, next, values.drop_first());
        match zero_at {
            Some(a) => rest.insert(a),
            None => rest,
        }
    }
}

/// A word among the first `STACK_SCAN_WORDS` words from the stack pointer up.
pub open spec fn in_scan_window(sp: u64, a: u64) -> bool {
    sp <= a < sp + 8 * STACK_SCAN_WORDS && (a - sp) % 8 == 0
}

/// From the stack phase on, the walk zeroes only words of the scan window.
proof fn lemma_stack_phase_stays_in_window(
    sp: u64,
    index: u64,
    vdso: u64,
    values: Seq<(i64, bool)>,
)
    requires
        index < STACK_SCAN_WORDS,
        sp + 8 * index <= u64::MAX,
    ensures
        forall|a: u64| #[trigger]
            walk_zeroes(sp, VdsoPhase::ScanStack { index, vdso }, values).contains(a)
                ==> in_scan_window(sp, a),
    decreases values.len(),
{
    let phase = VdsoPhase::ScanStack { index, vdso };
    if values.len() > 0 {
        let (next, zero_at) = after_peek(sp, phase, values[0].0, values[0].1);
        let rest = values.drop_first();
        if index + 1 < STACK_SCAN_WORDS && sp + 8 * (index + 1) <= u64::MAX {
            lemma_stack_phase_stays_in_window(sp, (index + 1) as u64, vdso, rest);
        } else {
            assert(next == VdsoPhase::Done || next == VdsoPhase::AddressOverflow);
            assert(walk_zeroes(sp, next, rest) =~= Set::<u64>::empty());
        }
        assert forall|a: u64| #[trigger] walk_zeroes(sp, phase, values).contains(a) implies in_scan_window(
            sp,
            a,
        ) by {
            if zero_at == Some(a) {
                assert(a == sp + 8 * index);
                assert((8 * index) % 8 == 0);
            } else {
                assert(walk_zeroes(sp, next, rest).contains(a));
            }
        }
    }
}

/// A whole walk over a new program's stack, whatever its peeks give, sets to zero
/// at most one word outside the first `STACK_SCAN_WORDS` stack words: the value
/// slot of the `AT_SYSINFO_EHDR` entry. Every other word it zeroes is in that window.
pub proof fn walk_zeroes_at_most_one_word_outside_the_window(
    sp: u64,
    values: Seq<(i64, bool)>,
)
    ensures
        forall|a: u64, b: u64|
            #![trigger walk_zeroes(sp, VdsoPhase::ReadArgc, values).contains(a), walk_zeroes(sp, VdsoPhase::ReadArgc, values).contains(b)]
            walk_zeroes(sp, VdsoPhase::ReadArgc, values).contains(a) && walk_zeroes(
                sp,
                VdsoPhase::ReadArgc,
                values,
            ).contains(b) && !in_scan_window(sp, a) && !in_scan_window(sp, b) ==> a == b,
{
    lemma_before_stack_phase(sp, VdsoPhase::ReadArgc, values);
}

/// Before the stack phase, the zeroed words outside the window are at most one.
proof fn lemma_before_stack_phase(sp: u64, phase: VdsoPhase, values: Seq<(i64, bool)>)
    requires
        !(phase is ScanStack),
        phase matches VdsoPhase::ReadAuxValue { addr, .. } ==> addr + 8 <= u64::MAX,
    ensures
        forall|a: u64, b: u64|
            #![trigger walk_zeroes(sp, phase, values).contains(a), walk_zeroes(sp, phase, values).contains(b)]
            walk_zeroes(sp, phase, values).contains(a) && walk_zeroes(sp, phase, values).contains(b)
                && !in_scan_window(sp, a) && !in_scan_window(sp, b) ==> a == b,
    decreases values.len(),
{
    if values.len() > 0 && phase != VdsoPhase::Done && phase != VdsoPhase::AddressOverflow {
        let (next, zero_at) = after_peek(sp, phase, values[0].0, values[0].1);
        let rest = values.drop_first();
        let zs = walk_zeroes(sp, phase, values);
        let rs = walk_zeroes(sp, next, rest);
        assert(zs == match zero_at {
            Some(a) => rs.insert(a),
            None => rs,
        });
        match next {
            VdsoPhase::ScanStack { index, vdso } => {
                lemma_stack_phase_stays_in_window(sp, index, vdso, rest);
                assert forall|a: u64, b: u64|
                    zs.contains(a) && zs.contains(b) && !in_scan_window(sp, a) && !in_scan_window(
                        sp,
                        b,
                    ) implies a == b by {
                    assert(!rs.contains(a));
                    assert(!rs.contains(b));
                }
            },
            VdsoPhase::Done => {
                assert(rs =~= Set::<u64>::empty());
            },
            VdsoPhase::AddressOverflow => {
                assert(rs =~= Set::<u64>::empty());
            },
            _ => {
                lemma_before_stack_phase(sp, next, rest);
                assert(zero_at is None);
            },
        }
    }
}

/// The address of stack word `i`.
pub open spec fn scan_word(sp: u64, i: int) -> u64 {
    (sp + 8 * i) as u64
}

/// The stack scan is complete: once the walk is in the stack phase at word
/// `index` and the peeks of the following words give `values`, every one of
/// the first `STACK_SCAN_WORDS` words whose peeked value is the vDSO address is
/// set to zero, the first copy as much as the last.
pub proof fn stack_scan_zeroes_every_copy(sp: u64, index: u64, vdso: u64, values: Seq<(i64, bool)>)
    requires
        index < STACK_SCAN_WORDS,
        sp + 8 * (STACK_SCAN_WORDS - 1) <= u64::MAX,
    ensures
        forall|j: int|
            0 <= j < values.len() && index + j < STACK_SCAN_WORDS && #[trigger] values[j].0 as u64
                == vdso ==> walk_zeroes(sp, VdsoPhase::ScanStack { index, vdso }, values).contains(
                scan_word(sp, index + j),
            ),
    decreases values.len(),
{
    let phase = VdsoPhase::ScanStack { index, vdso };
    if values.len() > 0 {
        let (next, zero_at) = after_peek(sp, phase, values[0].0, values[0].1);
        let rest = values.drop_first();
        let zs = walk_zeroes(sp, phase, values);
        let rs = walk_zeroes(sp, next, rest);
        assert(zs == match zero_at {
            Some(a) => rs.insert(a),
            None => rs,
        });
        if index + 1 < STACK_SCAN_WORDS {
            assert(next == VdsoPhase::ScanStack { index: (index + 1) as u64, vdso });
            stack_scan_zeroes_every_copy(sp, (index + 1) as u64, vdso, rest);
        }
        assert forall|j: int|
            0 <= j < values.len() && index + j < STACK_SCAN_WORDS && #[trigger] values[j].0 as u64
                == vdso implies zs.contains(scan_word(sp, index + j)) by {
            if j == 0 {
                assert(zero_at == Some(scan_word(sp, index as int)));
            } else {
                assert(rest[j - 1] == values[j]);
                assert(rs.contains(scan_word(sp, (index + 1) + (j - 1))));
            }
        }
    }
}

/// Skipping the `envp` entries: non-zero pointers up to a null word lead to the
/// first auxiliary vector key, just after the null.
proof fn lemma_skip_env(sp: u64, addr: u64, env: Seq<(i64, bool)>, rest: Seq<(i64, bool)>)
    requires
        forall|i: int| 0 <= i < env.len() ==> #[trigger] env[i].0 != 0 && env[i].0 != -1,
        addr + 8 * (env.len() + 1) <= u64::MAX,
    ensures
        walk_zeroes(sp, VdsoPhase::SkipEnv { addr }, env + (seq![(0i64, false)] + rest))
            == walk_zeroes(
            sp,
            VdsoPhase::ReadAuxKey { addr: (addr + 8 * (env.len() + 1)) as u64 },
            rest,
        ),
    decreases env.len(),
{
    let vs = env + (seq![(0i64, false)] + rest);
    if env.len() == 0 {
        assert(vs =~= seq![(0i64, false)] + rest);
        assert(vs[0] == (0i64, false));
        assert(vs.drop_first() =~= rest);
    } else {
        let tail = env.drop_first();
        assert(vs[0] == env[0]);
        assert(vs.drop_first() =~= tail + (seq![(0i64, false)] + rest));
        assert forall|i: int| 0 <= i < tail.len() implies #[trigger] tail[i].0 != 0 && tail[i].0
            != -1 by {
            assert(tail[i] == env[i + 1]);
        }
        lemma_skip_env(sp, (addr + 8) as u64, tail, rest);
    }
}

/// Reading the auxiliary vector: entries whose keys are neither the end mark nor
/// `AT_SYSINFO_EHDR` are passed over two words at a time, and the value slot of
/// the `AT_SYSINFO_EHDR` entry is zeroed.
proof fn lemma_find_vdso_entry(
    sp: u64,
    addr: u64,
    pairs: Seq<(i64, bool)>,
    value: i64,
    rest: Seq<(i64, bool)>,
)
    requires
        pairs.len() % 2 == 0,
        forall|i: int|
            0 <= i < pairs.len() && i % 2 == 0 ==> #[trigger] pairs[i].0 != 0 && pairs[i].0 != -1
                && pairs[i].0 != AT_SYSINFO_EHDR,
        addr + 8 * pairs.len() + 8 <= u64::MAX,
    ensures
        walk_zeroes(
            sp,
            VdsoPhase::ReadAuxKey { addr },
            pairs + (seq![(AT_SYSINFO_EHDR, false), (value, false)] + rest),
        ).contains((addr + 8 * pairs.len() + 8) as u64),
    decreases pairs.len(),
{
    let entry = seq![(AT_SYSINFO_EHDR, false), (value, false)];
    let vs = pairs + (entry + rest);
    if pairs.len() == 0 {
        assert(vs =~= entry + rest);
        assert(vs[0] == (AT_SYSINFO_EHDR, false));
        let vs1 = vs.drop_first();
        assert(vs1[0] == (value, false));
        let vs2 = vs1.drop_first();
        let key_phase = VdsoPhase::ReadAuxValue { addr, key: AT_SYSINFO_EHDR };
        assert(walk_zeroes(sp, VdsoPhase::ReadAuxKey { addr }, vs) == walk_zeroes(sp, key_phase, vs1));
        let (next, zero_at) = after_peek(sp, key_phase, value, false);
        assert(zero_at == Some((addr + 8) as u64));
        assert(walk_zeroes(sp, key_phase, vs1) == walk_zeroes(sp, next, vs2).insert((addr + 8) as u64));
    } else {
        let tail = pairs.drop_first().drop_first();
        let key = pairs[0].0;
        assert(pairs[0].0 != 0 && pairs[0].0 != -1 && pairs[0].0 != AT_SYSINFO_EHDR);
        let vs1 = vs.drop_first();
        let vs2 = vs1.drop_first();
        assert(vs[0] == pairs[0]);
        assert(vs1[0] == pairs[1]);
        assert(vs2 =~= tail + (entry + rest));
        assert forall|i: int| 0 <= i < tail.len() && i % 2 == 0 implies #[trigger] tail[i].0 != 0
            && tail[i].0 != -1 && tail[i].0 != AT_SYSINFO_EHDR by {
            assert(tail[i] == pairs[i + 2]);
            assert((i + 2) % 2 == 0);
        }
        let key_phase = VdsoPhase::ReadAuxValue { addr, key };
        assert(walk_zeroes(sp, VdsoPhase::ReadAuxKey { addr }, vs) == walk_zeroes(sp, key_phase, vs1));
        assert(walk_zeroes(sp, key_phase, vs1) == walk_zeroes(
            sp,
            VdsoPhase::ReadAuxKey { addr: (addr + 16) as u64 },
            vs2,
        ));
        lemma_find_vdso_entry(sp, (addr + 16) as u64, tail, value, rest);
    }
}

/// On a well-formed initial stack the walk finds and zeroes the vDSO entry: after
/// `argc`, the walk skips `argc + 1` words of `argv`, then the `envp` pointers up
/// to their null word, then auxiliary vector entries two words each, and zeroes
/// the value slot of the first `AT_SYSINFO_EHDR` entry, at
/// `sp + 8 * (argc + 2) + 8 * (envc + 1) + 16 * m + 8` for `envc` environment
/// pointers and `m` entries before it.
pub proof fn walk_zeroes_the_vdso_entry(
    sp: u64,
    argc: i64,
    env: Seq<(i64, bool)>,
    pairs: Seq<(i64, bool)>,
    value: i64,
    rest: Seq<(i64, bool)>,
)
    requires
        argc >= 0,
        forall|i: int| 0 <= i < env.len() ==> #[trigger] env[i].0 != 0 && env[i].0 != -1,
        pairs.len() % 2 == 0,
        forall|i: int|
            0 <= i < pairs.len() && i % 2 == 0 ==> #[trigger] pairs[i].0 != 0 && pairs[i].0 != -1
                && pairs[i].0 != AT_SYSINFO_EHDR,
        sp + 8 * (argc + 2) + 8 * (env.len() + 1) + 8 * pairs.len() + 8 <= u64::MAX,
    ensures
        walk_zeroes(
            sp,
            VdsoPhase::ReadArgc,
            seq![(argc, false)] + (env + (seq![(0i64, false)] + (pairs + (seq![
                (AT_SYSINFO_EHDR, false),
                (value, false),
            ] + rest)))),
        ).contains((sp + 8 * (argc + 2) + 8 * (env.len() + 1) + 8 * pairs.len() + 8) as u64),
{
    let aux = pairs + (seq![(AT_SYSINFO_EHDR, false), (value, false)] + rest);
    let after_argc = env + (seq![(0i64, false)] + aux);
    let vs = seq![(argc, false)] + after_argc;
    assert(vs[0] == (argc, false));
    assert(vs.drop_first() =~= after_argc);
    let env_addr = (sp + 8 + (argc as u64 + 1) * 8) as u64;
    assert(argc as u64 == argc);
    assert(after_peek(sp, VdsoPhase::ReadArgc, argc, false).0 == VdsoPhase::SkipEnv { addr: env_addr });
    lemma_skip_env(sp, env_addr, env, aux);
    let aux_addr = (env_addr + 8 * (env.len() + 1)) as u64;
    lemma_find_vdso_entry(sp, aux_addr, pairs, value, rest);
}

impl VdsoScan {
    /// The stack pointer at which the scan started.
    pub closed spec fn sp(&self) -> u64 {
        self.sp
    }

    /// Where the scan stands.
    pub closed spec fn phase(&self) -> VdsoPhase {
        self.phase
    }

    /// A phase that peeks has an address to peek.
    pub closed spec fn wf(&self) -> bool {
        match self.phase {
            VdsoPhase::ReadAuxValue { addr, key } => addr + 8 <= u64::MAX,
            VdsoPhase::ScanStack { index, vdso } => index < STACK_SCAN_WORDS && self.sp + 8
                * index <= u64::MAX,
            _ => true,
        }
    }

    /// A scan of the stack that starts at `sp`.
    pub fn new(sp: u64) -> (s: Self)
        ensures
            s.wf(),
            s.sp() == sp,
            s.phase() == VdsoPhase::ReadArgc,
    {
        VdsoScan { sp, phase: VdsoPhase::ReadArgc }
    }

    /// Where the scan stands.
    pub fn current_phase(&self) -> (p: VdsoPhase)
        ensures
            p == self.phase(),
    {
        self.phase
    }

    /// What the caller does next.
    pub fn next_step(&self) -> (step: VdsoStep)
        requires
            self.wf(),
        ensures
            step == (match self.phase() {
                VdsoPhase::Done => VdsoStep::Done,
                VdsoPhase::AddressOverflow => VdsoStep::AddressOverflow,
                _ => VdsoStep::Peek(peek_address(self.sp(), self.phase())->0),
            }),
            peek_address(self.sp(), self.phase()) is None <==> (self.phase() == VdsoPhase::Done
                || self.phase() == VdsoPhase::AddressOverflow),
    {
        match self.phase {
            VdsoPhase::ReadArgc => VdsoStep::Peek(self.sp),
            VdsoPhase::SkipEnv { addr } => VdsoStep::Peek(addr),
            VdsoPhase::ReadAuxKey { addr } => VdsoStep::Peek(addr),
            VdsoPhase::ReadAuxValue { addr, key } => VdsoStep::Peek(addr + 8),
            VdsoPhase::ScanStack { index, vdso } => VdsoStep::Peek(self.sp + 8 * index),
            VdsoPhase::Done => VdsoStep::Done,
            VdsoPhase::AddressOverflow => VdsoStep::AddressOverflow,
        }
    }

    /// Takes in the word that the last peek gave (`failed` when the peek reported
    /// an error) and returns the address of a word to set to zero, if any.
    pub fn on_peek(&mut self, value: i64, failed: bool) -> (zero_at: Option<u64>)
        requires
            old(self).wf(),
            old(self).phase() != VdsoPhase::Done,
            old(self).phase() != VdsoPhase::AddressOverflow,
        ensures
            final(self).wf(),
            final(self).sp() == old(self).sp(),
            (final(self).phase(), zero_at) == after_peek(
                old(self).sp(),
                old(self).phase(),
                value,
                failed,
            ),
    {
        let sp = self.sp;
        match self.phase {
            VdsoPhase::ReadArgc => {
                if value == -1 {
                    self.phase = VdsoPhase::Done;
                } else {
                    let argc = value as u64;
                    let next = match argc.checked_add(1) {
                        Some(n) => match n.checked_mul(8) {
                            Some(skip) => match sp.checked_add(8) {
                                Some(base) => match base.checked_add(skip) {
                                    Some(a) => VdsoPhase::SkipEnv { addr: a },
                                    None => VdsoPhase::AddressOverflow,
                                },
                                None => VdsoPhase::AddressOverflow,
                            },
                            None => VdsoPhase::AddressOverflow,
                        },
                        None => VdsoPhase::AddressOverflow,
                    };
                    self.phase = next;
                }
                None
            },
            VdsoPhase::SkipEnv { addr } => {
                let next = match addr.checked_add(8) {
                    Some(a) => if value == -1 && failed {
                        VdsoPhase::Done
                    } else if value == 0 || value == -1 {
                        VdsoPhase::ReadAuxKey { addr: a }
                    } else {
                        VdsoPhase::SkipEnv { addr: a }
                    },
                    None => if value == -1 && failed {
                        VdsoPhase::Done
                    } else {
                        VdsoPhase::AddressOverflow
                    },
                };
                self.phase = next;
                None
            },
            VdsoPhase::ReadAuxKey { addr } => {
                if value == 0 || value == -1 {
                    self.phase = VdsoPhase::Done;
                } else if addr <= u64::MAX - 8 {
                    self.phase = VdsoPhase::ReadAuxValue { addr, key: value };
                } else {
                    self.phase = VdsoPhase::AddressOverflow;
                }
                None
            },
            VdsoPhase::ReadAuxValue { addr, key } => {
                if key == AT_SYSINFO_EHDR {
                    let vdso = value as u64;
                    if vdso != 0 {
                        self.phase = VdsoPhase::ScanStack { index: 0, vdso };
                    } else {
                        self.phase = VdsoPhase::Done;
                    }
                    Some(addr + 8)
                } else {
                    self.phase = match addr.checked_add(16) {
                        Some(a) => VdsoPhase::ReadAuxKey { addr: a },
                        None => VdsoPhase::AddressOverflow,
                    };
                    None
                }
            },
            VdsoPhase::ScanStack { index, vdso } => {
                let here = sp + 8 * index;
                if index + 1 >= STACK_SCAN_WORDS {
                    self.phase = VdsoPhase::Done;
                } else if here <= u64::MAX - 8 {
                    self.phase = VdsoPhase::ScanStack { index: index + 1, vdso };
                } else {
                    self.phase = VdsoPhase::AddressOverflow;
                }
                if value as u64 == vdso {
                    Some(here)
                } else {
                    None
                }
            },
            VdsoPhase::Done => None,
            VdsoPhase::AddressOverflow => None,
        }
    }
}

} // verus!
