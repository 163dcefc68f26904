//! The virtual clock that traced processes see, and the deterministic bytes that
//! stand in for randomness.
//!
//! An instant is a count of nanoseconds since the Unix epoch. Like a system time
//! on Linux, it keeps its whole seconds in an `i64`, so the latest instant is
//! `i64::MAX` seconds and 999 999 999 nanoseconds.
use vstd::prelude::*;
use crate::memory::{word_byte, le_bytes, le_word};

verus! {

/// Nanoseconds in a second.
pub const NANOS_PER_SEC: u128 = 1_000_000_000;

/// The latest instant that the clock can hold.
pub const MAX_INSTANT_NS: u128 = 9_223_372_036_854_775_807 * 1_000_000_000 + 999_999_999;

/// The instant at which every sandbox starts: 123456789 seconds after the epoch.
pub const CLOCK_START_NS: u128 = 123_456_789 * 1_000_000_000;

/// The `struct timespec` (seconds, then nanoseconds, both 64-bit little-endian) that
/// reports the instant `now_ns`.
pub open spec fn timespec_of(now_ns: u128) -> Seq<u8> {
    le_bytes((now_ns / NANOS_PER_SEC) as u64) + le_bytes((now_ns % NANOS_PER_SEC) as u64)
}

/// The instant at which a sleep of `tv_sec` seconds and `tv_nsec` nanoseconds,
/// started at `now_ns`, ends; `None` where it lies beyond the latest instant.
pub open spec fn wake_time(now_ns: u128, tv_sec: u64, tv_nsec: u64) -> Option<u128> {
    let t = now_ns + tv_sec * NANOS_PER_SEC + tv_nsec;
    if t <= MAX_INSTANT_NS {
        Some(t as u128)
    } else {
        None
    }
}

/// Appends the little-endian bytes of `word` to `out`.
fn push_le_bytes(out: &mut Vec<u8>, word: u64)
    ensures
        final(out)@ == old(out)@ + le_bytes(word),
{
    let ghost start = out@;
    let mut i: u64 = 0;
    while i < 8
        invariant
            i <= 8,
            out@ == start + le_bytes(word).take(i as int),
        decreases 8 - i,
    {
        let b = ((word >> (8 * i)) & 0xff) as u8;
        out.push(b);
        assert(le_bytes(word).take(i + 1) =~= le_bytes(word).take(i as int).push(b));
        i = i + 1;
    }
    assert(le_bytes(word).take(8) =~= le_bytes(word));
}

/// The 16 bytes of the `struct timespec` that `clock_gettime` reports at the
/// instant `now_ns`: whole seconds, then the nanoseconds within the second.
pub fn timespec_bytes(now_ns: u128) -> (bytes: Vec<u8>)
    requires
        now_ns <= MAX_INSTANT_NS,
    ensures
        bytes@ == timespec_of(now_ns),
        bytes@.len() == 16,
{
    let seconds = (now_ns / NANOS_PER_SEC) as u64;
    let nanoseconds = (now_ns % NANOS_PER_SEC) as u64;
    let mut bytes: Vec<u8> = Vec::new();
    push_le_bytes(&mut bytes, seconds);
    push_le_bytes(&mut bytes, nanoseconds);
    assert(bytes@ =~= timespec_of(now_ns));
    bytes
}

/// The instant at which a requested sleep ends, or `None` where that instant lies
/// beyond the latest one the clock can hold.
pub fn sleep_deadline(now_ns: u128, tv_sec: u64, tv_nsec: u64) -> (deadline: Option<u128>)
    requires
        now_ns <= MAX_INSTANT_NS,
    ensures
        deadline == wake_time(now_ns, tv_sec, tv_nsec),
        deadline matches Some(t) ==> now_ns <= t,
{
    assert(tv_sec * NANOS_PER_SEC <= 18_446_744_073_709_551_615 * 1_000_000_000) by (
    nonlinear_arith)
        requires
            tv_sec <= 18_446_744_073_709_551_615u64,
    ;
    let t = now_ns + (tv_sec as u128) * NANOS_PER_SEC + (tv_nsec as u128);
    if t <= MAX_INSTANT_NS {
        Some(t)
    } else {
        None
    }
}

/// The bytes that stand in for `getrandom`: 0, 1, 2, ..., counting modulo 256.
pub open spec fn counting_bytes(len: nat) -> Seq<u8> {
    Seq::new(len, |i: int| (i % 256) as u8)
}

/// Fills a buffer of `len` bytes for a `getrandom` request, the same way every
/// time: byte `i` is `i` modulo 256.
pub fn deterministic_random_bytes(len: u64) -> (data: Vec<u8>)
    requires
        len <= usize::MAX,
    ensures
        data@ == counting_bytes(len as nat),
{
    let mut data: Vec<u8> = Vec::new();
    let mut i: u64 = 0;
    while i < len
        invariant
            i <= len,
            data@ == counting_bytes(i as nat),
        decreases len - i,
    {
        let b = i as u8;
        assert(b == (i % 256) as u8) by (bit_vector)
            requires
                b == i as u8,
        ;
        data.push(b);
        assert(data@ =~= counting_bytes((i + 1) as nat));
        i = i + 1;
    }
    data
}

/// A 64-bit word is recovered from its little-endian bytes.
pub proof fn le_bytes_round_trip(word: u64)
    ensures
        le_word(le_bytes(word)) == word,
{
    let b = le_bytes(word);
    assert(b[0] == word_byte(word, 0));
    assert(b[1] == word_byte(word, 1));
    assert(b[2] == word_byte(word, 2));
    assert(b[3] == word_byte(word, 3));
    assert(b[4] == word_byte(word, 4));
    assert(b[5] == word_byte(word, 5));
    assert(b[6] == word_byte(word, 6));
    assert(b[7] == word_byte(word, 7));
    assert(((((word >> 0u64) & 0xff) as u8) as u64) | (((((word >> 8u64) & 0xff) as u8) as u64)
        << 8) | (((((word >> 16u64) & 0xff) as u8) as u64) << 16) | (((((word >> 24u64) & 0xff) as u8)
        as u64) << 24) | (((((word >> 32u64) & 0xff) as u8) as u64) << 32) | (((((word >> 40u64)
        & 0xff) as u8) as u64) << 40) | (((((word >> 48u64) & 0xff) as u8) as u64) << 48) | (((((word
        >> 56u64) & 0xff) as u8) as u64) << 56) == word) by (bit_vector);
}

/// What `clock_gettime` hands a traced process decodes to the virtual instant:
/// its first word is the whole seconds, its second the nanoseconds within the
/// second.
pub proof fn timespec_reports_instant(now_ns: u128)
    requires
        now_ns <= MAX_INSTANT_NS,
    ensures
        timespec_of(now_ns).len() == 16,
        le_word(timespec_of(now_ns).subrange(0, 8)) * 1_000_000_000 + le_word(
            timespec_of(now_ns).subrange(8, 16),
        ) == now_ns,
        le_word(timespec_of(now_ns).subrange(8, 16)) < 1_000_000_000,
{
    let secs = (now_ns / NANOS_PER_SEC) as u64;
    let nanos = (now_ns % NANOS_PER_SEC) as u64;
    le_bytes_round_trip(secs);
    le_bytes_round_trip(nanos);
    assert(timespec_of(now_ns).subrange(0, 8) =~= le_bytes(secs));
    assert(timespec_of(now_ns).subrange(8, 16) =~= le_bytes(nanos));
}

/// A sleep moves the clock forward by exactly the requested duration, and it
/// has an end exactly when that end keeps its whole seconds within an `i64`.
pub proof fn sleep_moves_clock_forward(now_ns: u128, tv_sec: u64, tv_nsec: u64)
    requires
        now_ns <= MAX_INSTANT_NS,
    ensures
        (wake_time(now_ns, tv_sec, tv_nsec) is Some) <==> (now_ns + tv_sec * 1_000_000_000 + tv_nsec)
            / 1_000_000_000 <= 9_223_372_036_854_775_807,
        wake_time(now_ns, tv_sec, tv_nsec) matches Some(t) ==> t - now_ns == tv_sec
            * 1_000_000_000 + tv_nsec && t >= now_ns,
{
}

/// Every sandbox starts its clock 123456789 whole seconds after the epoch.
pub proof fn clock_starts_at_its_fixed_instant()
    ensures
        CLOCK_START_NS / 1_000_000_000 == 123_456_789,
        CLOCK_START_NS % 1_000_000_000 == 0,
{
}

/// The stand-in for randomness counts up from 0: byte `i` is `i` for the first
/// 256 bytes, and the bytes repeat every 256; a longer request starts the same
/// as a shorter one.
pub proof fn random_bytes_count_up(len: nat)
    ensures
        counting_bytes(len).len() == len,
        forall|i: int| 0 <= i < len && i < 256 ==> #[trigger] counting_bytes(len)[i] == i,
        forall|i: int|
            0 <= i && i + 256 < len ==> #[trigger] counting_bytes(len)[i + 256] == counting_bytes(
                len,
            )[i],
        forall|m: nat, i: int| 0 <= i < len && len <= m ==> #[trigger] counting_bytes(m)[i] == counting_bytes(len)[i],
{
}

} // verus!
