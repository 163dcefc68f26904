//! Reading and writing a traced process's memory one 64-bit word at a time.
//!
//! `ptrace` moves memory in words: a peek returns the word at an address, a poke
//! stores one. The types here decide which words to peek, what to make of the
//! words that come back, and which words to poke; the caller does the peeks and
//! pokes and feeds the results in. Offsets are counted in bytes from the start
//! address of the transfer.
use vstd::prelude::*;

verus! {

/// Byte `i` (from the least significant) of a 64-bit word.
pub open spec fn word_byte(word: u64, i: int) -> u8 {
    ((word >> (8 * i) as u64) & 0xff) as u8
}

/// The little-endian bytes of a 64-bit word.
pub open spec fn le_bytes(word: u64) -> Seq<u8> {
    Seq::new(8, |i: int| word_byte(word, i))
}

/// The 64-bit word whose little-endian bytes are the first eight of `b`.
pub open spec fn le_word(b: Seq<u8>) -> u64 {
    (b[0] as u64) | ((b[1] as u64) << 8) | ((b[2] as u64) << 16) | ((b[3] as u64) << 24)
        | ((b[4] as u64) << 32) | ((b[5] as u64) << 40) | ((b[6] as u64) << 48) | ((b[7] as u64)
        << 56)
}

/// Replacing byte `j` of a word leaves the other bytes as they were.
proof fn lemma_replace_byte(w: u64, b: u8, j: u64, k: u64)
    by (bit_vector)
    requires
        j < 8,
        k < 8,
    ensures
        ((((w & !(0xffu64 << (j * 8))) | ((b as u64) << (j * 8))) >> (k * 8)) & 0xff) as u8 == if k
            == j {
            b
        } else {
            ((w >> (k * 8)) & 0xff) as u8
        },
{
}

/// `word_byte` agrees with the shift by `8 * k` written the other way round.
proof fn lemma_word_byte_index(w: u64, k: u64)
    requires
        k < 8,
    ensures
        word_byte(w, k as int) == ((w >> (k * 8)) & 0xff) as u8,
{
    assert((8 * (k as int)) as u64 == k * 8);
}

/// The word with the bytes of `chunk` in its low positions and the bytes of `base`
/// above them.
pub open spec fn spliced_byte(base: u64, chunk: Seq<u8>, i: int) -> u8 {
    if i < chunk.len() {
        chunk[i]
    } else {
        word_byte(base, i)
    }
}

/// Splicing a chunk of bytes into a word keeps every byte of the old word above
/// the chunk, and puts the chunk's bytes, in order, below it.
pub proof fn splice_keeps_the_word_above_the_chunk(base: u64, chunk: Seq<u8>, i: int)
    requires
        chunk.len() <= 8,
        0 <= i < 8,
    ensures
        i >= chunk.len() ==> spliced_byte(base, chunk, i) == ((base >> (8 * i) as u64) & 0xff) as u8,
        i < chunk.len() ==> spliced_byte(base, chunk, i) == chunk[i],
{
}

/// Overwrites the low `chunk.len()` bytes of `base` with `chunk`, keeping the rest.
pub fn splice_word(base: u64, chunk: &[u8]) -> (word: u64)
    requires
        chunk@.len() <= 8,
    ensures
        forall|i: int| 0 <= i < 8 ==> #[trigger] word_byte(word, i) == spliced_byte(base, chunk@, i),
{
    let mut word = base;
    let n = chunk.len();
    let mut j: usize = 0;
    while j < n
        invariant
            n == chunk@.len(),
            n <= 8,
            j <= n,
            forall|i: int|
                0 <= i < 8 ==> #[trigger] word_byte(word, i) == if i < j {
                    chunk@[i]
                } else {
                    word_byte(base, i)
                },
        decreases n - j,
    {
        let ghost old_word = word;
        let shift = (j as u64) * 8;
        let b = chunk[j];
        word = (word & !(0xffu64 << shift)) | ((b as u64) << shift);
        assert forall|i: int| 0 <= i < 8 implies #[trigger] word_byte(word, i) == if i < j + 1 {
            chunk@[i]
        } else {
            word_byte(base, i)
        } by {
            lemma_replace_byte(old_word, b, j as u64, i as u64);
            lemma_word_byte_index(word, i as u64);
            lemma_word_byte_index(old_word, i as u64);
        }
        j = j + 1;
    }
    word
}

/// The next word that a memory write will poke, and whether it must first peek the
/// word that is there (when the data covers only part of it).
#[derive(Debug, Clone, Copy, PartialEq, Eq)]
pub struct PendingWord {
    pub offset: usize,
    pub partial: bool,
}

/// Writes a byte buffer into a traced process word by word, from offset 0 up.
/// A word that the buffer covers only in part keeps its other bytes, as far as
/// the peek of the old word succeeds; where it fails they become zero.
pub struct ChildMemoryWriter {
    data: Vec<u8>,
    pos: usize,
    words: Ghost<Seq<u64>>,
}

impl ChildMemoryWriter {
    /// The bytes to write.
    pub closed spec fn data(&self) -> Seq<u8> {
        self.data@
    }

    /// How many of them have been written.
    pub closed spec fn written(&self) -> nat {
        self.pos as nat
    }

    /// The words handed out so far, in order.
    pub closed spec fn words(&self) -> Seq<u64> {
        self.words@
    }

    /// The writer has written a whole number of words, or all the data; each
    /// word it handed out carries, byte by byte, the data at its offset.
    pub closed spec fn wf(&self) -> bool {
        &&& self.pos <= self.data@.len()
        &&& (self.pos % 8 == 0 || self.pos == self.data@.len())
        &&& self.words@.len() == (self.pos + 7) / 8
        &&& forall|i: int|
            0 <= i < self.pos ==> #[trigger] word_byte(self.words@[i / 8], i % 8) == self.data@[i]
    }

    /// The length of the chunk that starts at `pos`: eight bytes, or what is left.
    pub open spec fn chunk_len(len: nat, pos: nat) -> nat {
        if len - pos < 8 {
            (len - pos) as nat
        } else {
            8
        }
    }

    /// A writer that has written nothing yet.
    pub fn new(data: Vec<u8>) -> (w: Self)
        ensures
            w.wf(),
            w.data() == data@,
            w.written() == 0,
            w.words() == Seq::<u64>::empty(),
    {
        ChildMemoryWriter { data, pos: 0, words: Ghost(Seq::empty()) }
    }

    /// The next word to poke, or `None` once all the data is written.
    pub fn next_word(&self) -> (next: Option<PendingWord>)
        requires
            self.wf(),
        ensures
            self.written() < self.data().len() ==> next == Some(
                PendingWord {
                    offset: self.written() as usize,
                    partial: self.data().len() - self.written() < 8,
                },
            ),
            self.written() >= self.data().len() ==> next is None,
    {
        if self.pos < self.data.len() {
            Some(PendingWord { offset: self.pos, partial: self.data.len() - self.pos < 8 })
        } else {
            None
        }
    }

    /// Builds the word to poke at the pending offset and moves past it. `existing`
    /// is what the peek of the old word gave, where one was made and succeeded.
    pub fn complete_word(&mut self, existing: Option<u64>) -> (word: u64)
        requires
            old(self).wf(),
            old(self).written() < old(self).data().len(),
        ensures
            final(self).wf(),
            final(self).data() == old(self).data(),
            final(self).words() == old(self).words().push(word),
            final(self).written() == old(self).written() + Self::chunk_len(
                old(self).data().len(),
                old(self).written(),
            ),
            forall|i: int|
                0 <= i < 8 ==> #[trigger] word_byte(word, i) == spliced_byte(
                    if Self::chunk_len(old(self).data().len(), old(self).written()) < 8 {
                        match existing {
                            Some(w) => w,
                            None => 0,
                        }
                    } else {
                        0
                    },
                    old(self).data().subrange(
                        old(self).written() as int,
                        (old(self).written() + Self::chunk_len(
                            old(self).data().len(),
                            old(self).written(),
                        )) as int,
                    ),
                    i,
                ),
    {
        let left = self.data.len() - self.pos;
        let n: usize = if left < 8 {
            left
        } else {
            8
        };
        let base: u64 = if n < 8 {
            match existing {
                Some(w) => w,
                None => 0,
            }
        } else {
            0
        };
        let ghost old_pos = self.pos as int;
        let ghost old_words = self.words@;
        let word = splice_word(base, &self.data.as_slice()[self.pos..self.pos + n]);
        self.pos = self.pos + n;
        self.words = Ghost(self.words@.push(word));
        assert forall|i: int| 0 <= i < self.pos implies #[trigger] word_byte(
            self.words@[i / 8],
            i % 8,
        ) == self.data@[i] by {
            if i < old_pos {
                assert(i / 8 < old_words.len());
                assert(self.words@[i / 8] == old_words[i / 8]);
            } else {
                assert(i / 8 == old_pos / 8);
                assert(i % 8 == i - old_pos);
                assert(word_byte(word, i % 8) == spliced_byte(
                    base,
                    self.data@.subrange(old_pos, old_pos + n),
                    i % 8,
                ));
            }
        }
        word
    }
}

/// A finished write leaves the data in place: byte `i` of the data is byte
/// `i % 8` of the `i / 8`-th word handed out.
pub proof fn written_words_hold_the_data(w: &ChildMemoryWriter)
    requires
        w.wf(),
    ensures
        forall|i: int|
            0 <= i < w.written() ==> #[trigger] word_byte(w.words()[i / 8], i % 8) == w.data()[i],
        w.words().len() == (w.written() + 7) / 8,
{
}

/// Where the reading of a NUL-terminated string stops within one word: at the
/// first zero byte, or where `have + j` bytes would reach the cap; 8 where it does
/// not stop in this word.
pub open spec fn string_stop(bytes: Seq<u8>, have: int, cap: int, j: int) -> int
    decreases 8 - j,
{
    if j >= 8 {
        8
    } else if bytes[j] == 0 || have + j >= cap {
        j
    } else {
        string_stop(bytes, have, cap, j + 1)
    }
}

proof fn lemma_string_stop_bounds(bytes: Seq<u8>, have: int, cap: int, j: int)
    requires
        0 <= j <= 8,
    ensures
        j <= string_stop(bytes, have, cap, j) <= 8,
        forall|k: int|
            j <= k < string_stop(bytes, have, cap, j) ==> #[trigger] bytes[k] != 0 && have + k
                < cap,
        string_stop(bytes, have, cap, j) < 8 ==> (bytes[string_stop(bytes, have, cap, j)] == 0
            || have + string_stop(bytes, have, cap, j) >= cap),
    decreases 8 - j,
{
    if j < 8 && !(bytes[j] == 0 || have + j >= cap) {
        lemma_string_stop_bounds(bytes, have, cap, j + 1);
    }
}

/// Where a string read stops within a word is the first place it must: every
/// byte before the stop is non-zero and still under the cap, and the stop is the
/// end of the word, a zero byte, or the cap.
pub proof fn string_stop_is_the_first_stop(bytes: Seq<u8>, have: int, cap: int)
    requires
        bytes.len() == 8,
    ensures
        0 <= string_stop(bytes, have, cap, 0) <= 8,
        forall|k: int|
            0 <= k < string_stop(bytes, have, cap, 0) ==> #[trigger] bytes[k] != 0 && have + k
                < cap,
        string_stop(bytes, have, cap, 0) < 8 ==> (bytes[string_stop(bytes, have, cap, 0)] == 0
            || have + string_stop(bytes, have, cap, 0) >= cap),
{
    lemma_string_stop_bounds(bytes, have, cap, 0);
    assert forall|k: int| 0 <= k < string_stop(bytes, have, cap, 0) implies #[trigger] bytes[k]
        != 0 && have + k < cap by {
        lemma_string_stop_bounds(bytes, have, cap, 0);
        assert(0 <= k < string_stop(bytes, have, cap, 0));
    }
}

/// What a string read out of a traced process always satisfies: it holds no zero
/// byte, and fewer than `max_len` bytes (none where `max_len` is 0).
pub open spec fn string_within_bounds(bytes: Seq<u8>, max_len: nat) -> bool {
    &&& (bytes.len() < max_len || bytes.len() == 0)
    &&& forall|i: int| 0 <= i < bytes.len() ==> #[trigger] bytes[i] != 0
}

/// Reads a NUL-terminated string out of a traced process, one word at a time,
/// keeping fewer than `max_len` bytes. It stops at a zero byte, at the cap, or
/// when a peek fails.
pub struct ChildStringReader {
    bytes: Vec<u8>,
    max_len: usize,
    offset: usize,
    done: bool,
}

impl ChildStringReader {
    /// The bytes read so far.
    pub closed spec fn bytes(&self) -> Seq<u8> {
        self.bytes@
    }

    /// The bound that the original request gave.
    pub closed spec fn max_len(&self) -> nat {
        self.max_len as nat
    }

    /// The offset of the next word to peek.
    pub closed spec fn offset(&self) -> nat {
        self.offset as nat
    }

    /// Whether the reading has stopped.
    pub closed spec fn is_done(&self) -> bool {
        self.done
    }

    /// What every reader keeps: no zero byte, and fewer than `max_len` bytes.
    pub closed spec fn wf(&self) -> bool {
        &&& self.offset <= self.max_len
        &&& self.bytes@.len() <= self.offset
        &&& (self.max_len > 0 ==> self.bytes@.len() < self.max_len)
        &&& self.max_len == 0 ==> self.bytes@.len() == 0
        &&& forall|i: int| 0 <= i < self.bytes@.len() ==> #[trigger] self.bytes@[i] != 0
    }

    /// A reader that has read nothing, with room for fewer than `max_len` bytes.
    pub fn new(max_len: usize) -> (r: Self)
        ensures
            r.wf(),
            r.bytes() == Seq::<u8>::empty(),
            string_within_bounds(r.bytes(), r.max_len()),
            r.max_len() == max_len,
            r.offset() == 0,
            !r.is_done(),
    {
        ChildStringReader { bytes: Vec::new(), max_len, offset: 0, done: false }
    }

    /// The offset of the next word to peek, or `None` once the reading is over.
    pub fn next_offset(&self) -> (next: Option<usize>)
        ensures
            next == (if !self.is_done() && self.offset() < self.max_len() {
                Some(self.offset() as usize)
            } else {
                None
            }),
    {
        if !self.done && self.offset < self.max_len {
            Some(self.offset)
        } else {
            None
        }
    }

    /// Takes in the word peeked at the pending offset: its bytes, from the least
    /// significant, up to the first zero byte or the cap of `max_len - 1` bytes.
    pub fn feed_word(&mut self, word: u64)
        requires
            old(self).wf(),
            !old(self).is_done(),
            old(self).offset() < old(self).max_len(),
        ensures
            final(self).wf(),
            string_within_bounds(final(self).bytes(), final(self).max_len()),
            final(self).max_len() == old(self).max_len(),
            ({
                let stop = string_stop(
                    le_bytes(word),
                    old(self).bytes().len() as int,
                    old(self).max_len() - 1,
                    0,
                );
                &&& final(self).bytes() == old(self).bytes() + le_bytes(word).take(stop)
                &&& final(self).is_done() == (stop < 8)
                &&& final(self).offset() == (if old(self).max_len() - old(self).offset() <= 8 {
                    old(self).max_len()
                } else {
                    old(self).offset() + 8
                })
            }),
    {
        let ghost wb = le_bytes(word);
        let ghost have = self.bytes@.len() as int;
        let ghost cap = self.max_len - 1;
        proof {
            string_stop_is_the_first_stop(wb, have, cap);
        }
        let ghost stop = string_stop(wb, have, cap, 0);
        let mut j: u64 = 0;
        let mut stopped = false;
        while j < 8 && !stopped
            invariant
                0 <= j <= 8,
                wb == le_bytes(word),
                have == old(self).bytes().len(),
                cap == old(self).max_len() - 1,
                stop == string_stop(wb, have, cap, 0),
                0 <= stop <= 8,
                forall|k: int| 0 <= k < stop ==> #[trigger] wb[k] != 0 && have + k < cap,
                stop < 8 ==> (wb[stop] == 0 || have + stop >= cap),
                self.max_len == old(self).max_len,
                old(self).offset() < old(self).max_len(),
                self.offset == old(self).offset,
                self.done == old(self).done,
                !stopped ==> j <= stop,
                stopped ==> j == stop && stop < 8,
                self.bytes@ == old(self).bytes() + wb.take(j as int),
            decreases 8 - j + (if stopped { 0int } else { 1int }),
        {
            let b = ((word >> (j * 8)) & 0xff) as u8;
            proof {
                lemma_word_byte_index(word, j);
            }
            assert(b == wb[j as int]);
            if b == 0 || self.bytes.len() >= self.max_len - 1 {
                stopped = true;
            } else {
                self.bytes.push(b);
                assert(wb.take(j + 1) =~= wb.take(j as int).push(b));
                j = j + 1;
            }
        }
        if stopped {
            self.done = true;
        }
        assert(self.bytes@ == old(self).bytes() + wb.take(stop));
        assert forall|i: int| 0 <= i < self.bytes@.len() implies #[trigger] self.bytes@[i] != 0 by {
            if i >= have {
                assert(self.bytes@[i] == wb[i - have]);
            } else {
                assert(self.bytes@[i] == old(self).bytes()[i]);
            }
        }
        proof {
            if stop > 0 {
                assert(wb[stop - 1] != 0);
            }
        }
        assert(self.bytes@.len() < self.max_len);
        self.offset = if self.max_len - self.offset <= 8 {
            self.max_len
        } else {
            self.offset + 8
        };
    }

    /// A peek failed: the reading stops with what it has.
    pub fn peek_failed(&mut self)
        requires
            old(self).wf(),
        ensures
            final(self).wf(),
            string_within_bounds(final(self).bytes(), final(self).max_len()),
            final(self).is_done(),
            final(self).bytes() == old(self).bytes(),
            final(self).max_len() == old(self).max_len(),
            final(self).offset() == old(self).offset(),
    {
        self.done = true;
    }

    /// The bytes read, as a string in which any byte sequence that is not UTF-8
    /// stands as U+FFFD.
    pub fn into_string(self) -> (s: String)
        ensures
            s@ == lossy_utf8(self.bytes()),
    {
        utf8_lossy(self.bytes.as_slice())
    }
}

/// The text that `String::from_utf8_lossy` makes of a byte sequence.
pub uninterp spec fn lossy_utf8(bytes: Seq<u8>) -> Seq<char>;

/// `String::from_utf8_lossy`, made an owned `String`. Its result is named by
/// `lossy_utf8`; where every byte is ASCII, the documentation makes it the string
/// of those bytes, one character each. What it gives for other bytes is left to
/// the name.
#[verifier::external_body]
fn utf8_lossy(bytes: &[u8]) -> (s: String)
    ensures
        s@ == lossy_utf8(bytes@),
        (forall|i: int| 0 <= i < bytes@.len() ==> #[trigger] bytes@[i] < 128) ==> s@ =~= bytes@.map_values(
            |b: u8| b as char,
        ),
{
    String::from_utf8_lossy(bytes).into_owned()
}

/// The ASCII digit of a nibble in lower-case hexadecimal.
pub open spec fn hex_digit(d: u8) -> u8 {
    if d < 10 {
        (48 + d) as u8
    } else {
        (87 + d) as u8
    }
}

/// The escape `\xNN` of a byte, `NN` in lower-case hexadecimal.
pub open spec fn escape_of(b: u8) -> Seq<u8> {
    seq![92u8, 120u8, hex_digit(b / 16), hex_digit(b % 16)]
}

/// The escapes of a sequence of bytes, one after the other.
pub open spec fn escapes_of(bytes: Seq<u8>) -> Seq<u8>
    decreases bytes.len(),
{
    if bytes.len() == 0 {
        Seq::empty()
    } else {
        escapes_of(bytes.drop_last()) + escape_of(bytes.last())
    }
}

/// Reads `len` bytes of a traced process and renders them as `\xNN` escapes.
/// Byte `i` comes from the word at offset `i - i % 8`, at position `i % 8`;
/// the rendering stops when a peek fails.
pub struct EscapedBytes {
    len: u64,
    index: u64,
    bytes: Vec<u8>,
    done: bool,
}

impl EscapedBytes {
    /// The bytes read so far.
    pub closed spec fn bytes(&self) -> Seq<u8> {
        self.bytes@
    }

    /// How many bytes are to be read.
    pub closed spec fn len(&self) -> nat {
        self.len as nat
    }

    /// Whether a peek has failed.
    pub closed spec fn is_done(&self) -> bool {
        self.done
    }

    pub closed spec fn wf(&self) -> bool {
        &&& self.index <= self.len
        &&& self.bytes@.len() == self.index
    }

    /// A reader of `len` bytes that has read none.
    pub fn new(len: u64) -> (r: Self)
        ensures
            r.wf(),
            r.len() == len,
            r.bytes() == Seq::<u8>::empty(),
            !r.is_done(),
    {
        EscapedBytes { len, index: 0, bytes: Vec::new(), done: false }
    }

    /// The offset of the word to peek for the next byte, or `None` once all bytes
    /// are read or a peek has failed.
    pub fn next_offset(&self) -> (next: Option<u64>)
        requires
            self.wf(),
        ensures
            next == (if !self.is_done() && self.bytes().len() < self.len() {
                Some((self.bytes().len() - self.bytes().len() % 8) as u64)
            } else {
                None
            }),
    {
        if !self.done && self.index < self.len {
            Some(self.index - self.index % 8)
        } else {
            None
        }
    }

    /// Takes in the word peeked for the next byte.
    pub fn feed_word(&mut self, word: u64)
        requires
            old(self).wf(),
            !old(self).is_done(),
            old(self).bytes().len() < old(self).len(),
        ensures
            final(self).wf(),
            final(self).len() == old(self).len(),
            !final(self).is_done(),
            final(self).bytes() == old(self).bytes().push(
                word_byte(word, (old(self).bytes().len() % 8) as int),
            ),
    {
        let k = self.index % 8;
        let b = ((word >> (k * 8)) & 0xff) as u8;
        proof {
            lemma_word_byte_index(word, k);
        }
        self.bytes.push(b);
        self.index = self.index + 1;
    }

    /// A peek failed: no more bytes are read.
    pub fn peek_failed(&mut self)
        requires
            old(self).wf(),
        ensures
            final(self).wf(),
            final(self).is_done(),
            final(self).len() == old(self).len(),
            final(self).bytes() == old(self).bytes(),
    {
        self.done = true;
    }

    /// The `\xNN` escapes of the bytes read, as ASCII text.
    pub fn escaped(&self) -> (text: Vec<u8>)
        ensures
            text@ == escapes_of(self.bytes()),
    {
        escape_bytes(self.bytes.as_slice())
    }
}

/// The ASCII digit of a nibble.
fn hex_digit_of(d: u8) -> (c: u8)
    requires
        d < 16,
    ensures
        c == hex_digit(d),
{
    if d < 10 {
        48 + d
    } else {
        87 + d
    }
}

/// Renders bytes as `\xNN` escapes in lower-case hexadecimal, as ASCII text.
pub fn escape_bytes(bytes: &[u8]) -> (text: Vec<u8>)
    ensures
        text@ == escapes_of(bytes@),
{
    let mut text: Vec<u8> = Vec::new();
    let mut i: usize = 0;
    while i < bytes.len()
        invariant
            i <= bytes@.len(),
            text@ == escapes_of(bytes@.take(i as int)),
        decreases bytes@.len() - i,
    {
        let b = bytes[i];
        text.push(92u8);
        text.push(120u8);
        text.push(hex_digit_of(b / 16));
        text.push(hex_digit_of(b % 16));
        assert(bytes@.take(i + 1).drop_last() =~= bytes@.take(i as int));
        assert(text@ =~= escapes_of(bytes@.take(i as int)) + escape_of(b));
        i = i + 1;
    }
    assert(bytes@.take(bytes@.len() as int) =~= bytes@);
    text
}

/// The value of a lower-case hexadecimal digit, or -1 for any other byte.
pub open spec fn hex_value(c: u8) -> int {
    if 48 <= c <= 57 {
        c - 48
    } else if 97 <= c <= 102 {
        c - 87
    } else {
        -1
    }
}

proof fn lemma_hex_digit_round_trip(d: u8)
    requires
        d < 16,
    ensures
        0 <= hex_value(hex_digit(d)) < 16,
        hex_value(hex_digit(d)) == d,
{
}

proof fn lemma_escapes_layout(bytes: Seq<u8>)
    ensures
        escapes_of(bytes).len() == 4 * bytes.len(),
        forall|k: int|
            0 <= k < bytes.len() ==> escapes_of(bytes).subrange(4 * k, 4 * k + 4) == escape_of(
                #[trigger] bytes[k],
            ),
    decreases bytes.len(),
{
    if bytes.len() > 0 {
        let init = bytes.drop_last();
        lemma_escapes_layout(init);
        let e = escapes_of(bytes);
        assert(e == escapes_of(init) + escape_of(bytes.last()));
        assert forall|k: int| 0 <= k < bytes.len() implies e.subrange(4 * k, 4 * k + 4) == escape_of(
            #[trigger] bytes[k],
        ) by {
            if k < bytes.len() - 1 {
                assert(init[k] == bytes[k]);
                assert(e.subrange(4 * k, 4 * k + 4) =~= escapes_of(init).subrange(4 * k, 4 * k + 4));
            } else {
                assert(e.subrange(4 * k, 4 * k + 4) =~= escape_of(bytes.last()));
            }
        }
    }
}

/// `e` is one escape `\xHL`, whose lower-case hexadecimal digits `H` and `L`
/// have the value `b`.
pub open spec fn escape_decodes_to(e: Seq<u8>, b: u8) -> bool {
    &&& e.len() == 4
    &&& e[0] == 92u8
    &&& e[1] == 120u8
    &&& 0 <= hex_value(e[2]) < 16
    &&& 0 <= hex_value(e[3]) < 16
    &&& hex_value(e[2]) * 16 + hex_value(e[3]) == b
}

/// Escaped bytes read back: escape `k` of the rendering is `\x` followed by two
/// lower-case hexadecimal digits whose value is byte `k`, for every byte.
pub proof fn escapes_decode_to_the_bytes(bytes: Seq<u8>)
    ensures
        escapes_of(bytes).len() == 4 * bytes.len(),
        forall|k: int|
            0 <= k < bytes.len() ==> escape_decodes_to(
                escapes_of(bytes).subrange(4 * k, 4 * k + 4),
                #[trigger] bytes[k],
            ),
{
    lemma_escapes_layout(bytes);
    assert forall|k: int| 0 <= k < bytes.len() implies escape_decodes_to(
        escapes_of(bytes).subrange(4 * k, 4 * k + 4),
        #[trigger] bytes[k],
    ) by {
        let b = bytes[k];
        let e = escapes_of(bytes).subrange(4 * k, 4 * k + 4);
        assert(e == escape_of(b));
        lemma_hex_digit_round_trip(b / 16);
        lemma_hex_digit_round_trip(b % 16);
        assert(e[2] == hex_digit(b / 16));
        assert(e[3] == hex_digit(b % 16));
        assert(b == 16 * (b / 16) + b % 16);
    }
}

} // verus!
