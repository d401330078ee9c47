use trembyle::buffers::token_values;
use trembyle::tokens::hex;

fn scan(line: &[u8]) -> Vec<u64> {
    let list = hex(line);
    token_values(&list)
}

#[test]
fn memory_command_yields_two_tokens() {
    assert_eq!(scan(b"m 1000 2000\r"), vec![0x1000, 0x2000]);
}

#[test]
fn run_at_end_of_full_buffer_is_flushed() {
    let line = b"m 1 2 3 4 5 abcd";
    assert_eq!(line.len(), 16);
    assert_eq!(scan(line), vec![1, 2, 3, 4, 5, 0xabcd]);
}

#[test]
fn run_at_end_without_separator_is_flushed() {
    assert_eq!(scan(b"h ffc00000"), vec![0xffc0_0000]);
}

#[test]
fn separators_do_not_enter_values() {
    assert_eq!(scan(b"m 12zz34"), vec![0x12, 0x34]);
    assert_eq!(scan(b"m12-34"), scan(b"m12 34"));
    assert_eq!(scan(b"o  7   9 "), vec![7, 9]);
}

#[test]
fn digits_of_both_cases() {
    assert_eq!(scan(b"i AbCdEf09"), vec![0xabcd_ef09]);
}

#[test]
fn no_digits_no_tokens() {
    assert_eq!(scan(b"m \r"), Vec::<u64>::new());
    assert_eq!(scan(b""), Vec::<u64>::new());
}

#[test]
fn long_run_wraps() {
    assert_eq!(scan(b"11234567890abcdef"), vec![0x1234_5678_90ab_cdef]);
}

#[test]
fn eight_tokens_fit() {
    assert_eq!(scan(b"1 2 3 4 5 6 7 8 "), vec![1, 2, 3, 4, 5, 6, 7, 8]);
}
