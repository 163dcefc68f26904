use rust_container::clock::{
    deterministic_random_bytes, sleep_deadline, timespec_bytes, CLOCK_START_NS, MAX_INSTANT_NS,
    NANOS_PER_SEC,
};
use rust_container::memory::{escape_bytes, splice_word, ChildMemoryWriter, ChildStringReader, EscapedBytes, PendingWord};

#[test]
fn timespec_of_clock_start() {
    let bytes = timespec_bytes(CLOCK_START_NS);
    assert_eq!(bytes.len(), 16);
    assert_eq!(u64::from_le_bytes(bytes[0..8].try_into().unwrap()), 123456789);
    assert_eq!(u64::from_le_bytes(bytes[8..16].try_into().unwrap()), 0);
}

#[test]
fn timespec_round_trip() {
    for now in [0u128, 1, 999_999_999, 1_000_000_000, CLOCK_START_NS + 5, MAX_INSTANT_NS] {
        let bytes = timespec_bytes(now);
        let secs = u64::from_le_bytes(bytes[0..8].try_into().unwrap()) as u128;
        let nanos = u64::from_le_bytes(bytes[8..16].try_into().unwrap()) as u128;
        assert_eq!(secs * NANOS_PER_SEC + nanos, now);
        assert!(nanos < NANOS_PER_SEC);
    }
}

#[test]
fn sleep_moves_clock_forward_by_the_request() {
    assert_eq!(sleep_deadline(CLOCK_START_NS, 2, 0), Some(CLOCK_START_NS + 2 * NANOS_PER_SEC));
    assert_eq!(sleep_deadline(CLOCK_START_NS, 0, 1_500_000_000), Some(CLOCK_START_NS + 1_500_000_000));
    assert_eq!(sleep_deadline(CLOCK_START_NS, 0, 0), Some(CLOCK_START_NS));
}

#[test]
fn sleep_beyond_the_latest_instant() {
    assert_eq!(sleep_deadline(CLOCK_START_NS, u64::MAX, 0), None);
    assert_eq!(sleep_deadline(MAX_INSTANT_NS, 0, 1), None);
    assert_eq!(sleep_deadline(MAX_INSTANT_NS, 0, 0), Some(MAX_INSTANT_NS));
    assert_eq!(sleep_deadline(0, i64::MAX as u64, 999_999_999), Some(MAX_INSTANT_NS));
}

#[test]
fn random_bytes_give_the_expected_seed() {
    let data = deterministic_random_bytes(8);
    assert_eq!(data, vec![0, 1, 2, 3, 4, 5, 6, 7]);
    assert_eq!(u64::from_le_bytes(data.try_into().unwrap()), 506097522914230528u64);
}

#[test]
fn random_bytes_count_modulo_256() {
    let data = deterministic_random_bytes(300);
    assert_eq!(data.len(), 300);
    assert_eq!(data[255], 255);
    assert_eq!(data[256], 0);
    assert_eq!(data[299], 43);
    assert!(deterministic_random_bytes(0).is_empty());
}

#[test]
fn splice_keeps_the_upper_bytes() {
    let base = 0x1122334455667788u64;
    assert_eq!(splice_word(base, &[0xaa, 0xbb]), 0x112233445566bbaa);
    assert_eq!(splice_word(base, &[]), base);
    assert_eq!(splice_word(base, &[1, 2, 3, 4, 5, 6, 7, 8]), 0x0807060504030201);
}

fn write_through(data: &[u8], memory: &mut Vec<u8>, peek_fails: bool) {
    let mut writer = ChildMemoryWriter::new(data.to_vec());
    while let Some(PendingWord { offset, partial }) = writer.next_word() {
        let existing = if partial && !peek_fails {
            Some(u64::from_le_bytes(memory[offset..offset + 8].try_into().unwrap()))
        } else {
            None
        };
        let word = writer.complete_word(existing);
        memory[offset..offset + 8].copy_from_slice(&word.to_le_bytes());
    }
}

#[test]
fn memory_writer_writes_whole_words() {
    let data: Vec<u8> = (1..=16).collect();
    let mut memory = vec![0xffu8; 24];
    write_through(&data, &mut memory, false);
    assert_eq!(&memory[0..16], &data[..]);
    assert_eq!(&memory[16..24], &[0xff; 8]);
}

#[test]
fn memory_writer_keeps_the_rest_of_a_partial_word() {
    let data: Vec<u8> = (1..=10).collect();
    let mut memory = vec![0xeeu8; 16];
    write_through(&data, &mut memory, false);
    assert_eq!(&memory[0..10], &data[..]);
    assert_eq!(&memory[10..16], &[0xee; 6]);
}

#[test]
fn memory_writer_zeroes_the_rest_when_the_peek_fails() {
    let data: Vec<u8> = vec![9, 8, 7];
    let mut memory = vec![0xeeu8; 8];
    write_through(&data, &mut memory, true);
    assert_eq!(memory, vec![9, 8, 7, 0, 0, 0, 0, 0]);
}

#[test]
fn memory_writer_offsets() {
    let mut writer = ChildMemoryWriter::new(vec![0u8; 20]);
    assert_eq!(writer.next_word(), Some(PendingWord { offset: 0, partial: false }));
    writer.complete_word(None);
    assert_eq!(writer.next_word(), Some(PendingWord { offset: 8, partial: false }));
    writer.complete_word(None);
    assert_eq!(writer.next_word(), Some(PendingWord { offset: 16, partial: true }));
    writer.complete_word(Some(0));
    assert_eq!(writer.next_word(), None);
    assert_eq!(ChildMemoryWriter::new(Vec::new()).next_word(), None);
}

fn read_string(memory: &[u8], max_len: usize) -> String {
    let mut reader = ChildStringReader::new(max_len);
    while let Some(offset) = reader.next_offset() {
        if offset + 8 > memory.len() {
            reader.peek_failed();
            break;
        }
        reader.feed_word(u64::from_le_bytes(memory[offset..offset + 8].try_into().unwrap()));
    }
    reader.into_string()
}

#[test]
fn string_reader_stops_at_nul() {
    let mut memory = b"/etc/hostname\0garbage".to_vec();
    memory.resize(32, 0);
    assert_eq!(read_string(&memory, 4096), "/etc/hostname");
}

#[test]
fn string_reader_keeps_fewer_than_max_len_bytes() {
    let memory = b"abcdefghijklmnopqrstuvwx".to_vec();
    assert_eq!(read_string(&memory, 5), "abcd");
    assert_eq!(read_string(&memory, 1), "");
    assert_eq!(read_string(&memory, 0), "");
    assert_eq!(read_string(&memory, 10), "abcdefghi");
}

#[test]
fn string_reader_stops_when_a_peek_fails() {
    let memory = b"abcdefghijkl".to_vec();
    assert_eq!(read_string(&memory, 4096), "abcdefgh");
}

#[test]
fn string_reader_replaces_invalid_utf8() {
    let mut memory = vec![0x66, 0x6f, 0xff, 0x6f];
    memory.resize(8, 0);
    assert_eq!(read_string(&memory, 100), "fo\u{fffd}o");
}

#[test]
fn escapes_are_lower_case_hex() {
    assert_eq!(escape_bytes(&[0x00, 0x0a, 0xff, 0x41]), b"\\x00\\x0a\\xff\\x41".to_vec());
    assert!(escape_bytes(&[]).is_empty());
}

#[test]
fn escaped_reader_picks_bytes_out_of_words() {
    let memory: Vec<u8> = b"Hello, World!\n\0\0".to_vec();
    let mut reader = EscapedBytes::new(14);
    let mut offsets = Vec::new();
    while let Some(offset) = reader.next_offset() {
        offsets.push(offset);
        let o = offset as usize;
        reader.feed_word(u64::from_le_bytes(memory[o..o + 8].try_into().unwrap()));
    }
    assert_eq!(offsets, vec![0, 0, 0, 0, 0, 0, 0, 0, 8, 8, 8, 8, 8, 8]);
    assert_eq!(reader.escaped(), escape_bytes(&memory[0..14]));
}

#[test]
fn escaped_reader_stops_when_a_peek_fails() {
    let mut reader = EscapedBytes::new(4);
    reader.feed_word(0x41);
    reader.peek_failed();
    assert_eq!(reader.next_offset(), None);
    assert_eq!(reader.escaped(), b"\\x41".to_vec());
    assert_eq!(EscapedBytes::new(0).next_offset(), None);
}
