//! The fault reporter's hexadecimal formatting and diagnostic lines.
//!
//! The reporter hands its diagnostics out one character at a time; the
//! tests collect them by index and compare against the exact lines.

use svruntime::irq::{
    alloc_failure, alloc_failure_char, decode_irq, decode_irq_char, print_hex, print_string,
};

fn hex16(value: usize) -> String {
    (0..16).map(|i| print_hex(value, i)).collect()
}

fn irq_text(cause: usize, epc: usize, entry: usize) -> String {
    let (len, _) = decode_irq(cause, epc, entry);
    (0..len).map(|i| decode_irq_char(cause, epc, entry, i)).collect()
}

fn alloc_text(size: usize) -> String {
    let (len, _) = alloc_failure(size);
    (0..len).map(|i| alloc_failure_char(size, i)).collect()
}

#[test]
fn print_hex_pads_to_sixteen_nibbles() {
    assert_eq!(hex16(0), "0000000000000000");
    assert_eq!(hex16(0xdead_beef), "00000000deadbeef");
    assert_eq!(hex16(1), "0000000000000001");
}

#[test]
fn print_hex_is_most_significant_first() {
    assert_eq!(hex16(0x1234_5678_9abc_def0), "123456789abcdef0");
    assert_eq!(hex16(usize::MAX), "ffffffffffffffff");
}

#[test]
fn print_string_yields_each_character_in_order() {
    assert_eq!(print_string("abc", 0), 'a');
    assert_eq!(print_string("abc", 1), 'b');
    assert_eq!(print_string("abc", 2), 'c');
}

#[test]
fn trap_report_emits_both_values_in_full_hex() {
    let (len, halt) = decode_irq(0x8000000000000007, 0x80200000, 0x80000000);
    let expected = "Internal error: Unhandled exception/irq 0x8000000000000007 at \
                    0x0000000080200000 sventry 0x0000000080000000 Shutting down...\n";
    assert_eq!(len, expected.chars().count());
    assert_eq!(irq_text(0x8000000000000007, 0x80200000, 0x80000000), expected);
    // the reset that follows reports a system failure and never returns
    assert_eq!(halt.extension, 0x53525354);
    assert_eq!(halt.function, 0);
    assert_eq!(halt.param0, 0);
    assert_eq!(halt.param1, 1);
}

#[test]
fn alloc_failure_report_names_the_size() {
    let (len, halt) = alloc_failure(0x20);
    let expected = "Internal error: Memory allocation failed, tried to allocate/free \
                    0x0000000000000020 bytes. Shutting down...\n";
    assert_eq!(len, expected.chars().count());
    assert_eq!(alloc_text(0x20), expected);
    assert_eq!(halt.extension, 0x53525354);
    assert_eq!(halt.param1, 1);
}
