//! The last-resort fault reporter.
//!
//! When a synchronous exception or an allocation failure arrives, the
//! rest of the runtime — heap, formatting machinery, locks — cannot be
//! trusted, so the diagnostic line is assembled here from nothing but
//! characters and a fixed hexadecimal table, and without touching the
//! heap: the fault may be caused by the allocator itself.  Each function
//! names the exact character stream of its diagnostic as a sequence, and
//! hands out one character at a time; the trap glue around the library
//! reads the cause and fault address registers, pushes the characters
//! through the raw put-char call in index order, issues the reset
//! request that follows, and spins if the reset ever returns.

use vstd::prelude::*;

verus! {

use vstd::arithmetic::div_mod::lemma_div_denominator;
use vstd::string::StrSliceExecFns;

use crate::sbi;
use crate::sbi::{SbiCall, SBI_EXT_SYS_RESET_REASON};

/// 16 raised to the power `k`.
pub open spec fn pow16(k: nat) -> nat
    decreases k,
{
    if k == 0 {
        1
    } else {
        16 * pow16((k - 1) as nat)
    }
}

/// Powers of sixteen are positive.
pub proof fn lemma_pow16_pos(k: nat)
    ensures
        pow16(k) >= 1,
    decreases k,
{
    if k > 0 {
        lemma_pow16_pos((k - 1) as nat);
    }
}

/// The fixed lookup table: digit `d` of a nibble as a character.
pub open spec fn hex_digit_char(d: nat) -> char {
    if d == 0 {
        '0'
    } else if d == 1 {
        '1'
    } else if d == 2 {
        '2'
    } else if d == 3 {
        '3'
    } else if d == 4 {
        '4'
    } else if d == 5 {
        '5'
    } else if d == 6 {
        '6'
    } else if d == 7 {
        '7'
    } else if d == 8 {
        '8'
    } else if d == 9 {
        '9'
    } else if d == 10 {
        'a'
    } else if d == 11 {
        'b'
    } else if d == 12 {
        'c'
    } else if d == 13 {
        'd'
    } else if d == 14 {
        'e'
    } else {
        'f'
    }
}

/// The sixteen hexadecimal digits of a word, most significant nibble
/// first: position `i` holds the digit of weight `16^(15 - i)`.
pub open spec fn hex_digits(v: nat) -> Seq<char> {
    Seq::new(16, |i: int| hex_digit_char((v / pow16((15 - i) as nat)) % 16))
}

/// One nibble as a character.
fn hex_digit(d: u64) -> (c: char)
    requires
        d < 16,
    ensures
        c == hex_digit_char(d as nat),
{
    match d {
        0 => '0',
        1 => '1',
        2 => '2',
        3 => '3',
        4 => '4',
        5 => '5',
        6 => '6',
        7 => '7',
        8 => '8',
        9 => '9',
        10 => 'a',
        11 => 'b',
        12 => 'c',
        13 => 'd',
        14 => 'e',
        _ => 'f',
    }
}

/// The hexadecimal digit of a word at the given position, most
/// significant first and zero-padded to sixteen digits.  Nothing but
/// divisions and the fixed table: no heap, no formatting machinery.
/// Callers print the `0x` prefix themselves, then positions 0 to 15.
pub fn print_hex(value: usize, index: usize) -> (c: char)
    requires
        index < 16,
    ensures
        c == hex_digits(value as nat)[index as int],
{
    let steps = 15 - index;
    let mut v: u64 = value as u64;
    let mut k: usize = 0;
    proof {
        assert(pow16(0) == 1);
        assert((value as nat) / 1 == value as nat);
    }
    while k < steps
        invariant
            k <= steps,
            steps == 15 - index,
            index < 16,
            v as nat == (value as nat) / pow16(k as nat),
        decreases steps - k,
    {
        proof {
            lemma_pow16_pos(k as nat);
            lemma_div_denominator(value as int, pow16(k as nat) as int, 16);
            assert(pow16(k as nat) * 16 == pow16((k + 1) as nat)) by {
                assert(pow16((k + 1) as nat) == 16 * pow16(k as nat));
            }
        }
        v = v / 16;
        k = k + 1;
    }
    hex_digit(v % 16)
}

/// The character the reporter pushes through the raw put-char call at
/// the given position of a string segment.  One character at a time, no
/// heap: the fault path owns no buffer.
pub fn print_string(s: &str, index: usize) -> (c: char)
    requires
        index < s@.len(),
    ensures
        c == s@[index as int],
{
    s.get_char(index)
}

/// The diagnostic line for an unhandled exception or interrupt: the
/// cause code, the faulting address and the address of the entry symbol
/// (a known-good landmark), each as `0x` and sixteen nibbles.
pub open spec fn irq_message(cause: usize, epc: usize, entry: usize) -> Seq<char> {
    "Internal error: Unhandled exception/irq 0x"@ + hex_digits(cause as nat) + " at 0x"@
        + hex_digits(epc as nat) + " sventry 0x"@ + hex_digits(entry as nat)
        + " Shutting down...\n"@
}

/// The diagnostic line for an unrecoverable allocation failure: the
/// size of the attempted allocation as `0x` and sixteen nibbles.
pub open spec fn alloc_message(attempted_size: usize) -> Seq<char> {
    "Internal error: Memory allocation failed, tried to allocate/free 0x"@ + hex_digits(
        attempted_size as nat,
    ) + " bytes. Shutting down...\n"@
}

/// The diagnostic for an unhandled exception or interrupt: its length in
/// characters, and the reset request that must follow it, which reports
/// a system failure.  The handler never returns to the faulting context:
/// after the reset request the glue spins forever.  The characters
/// themselves come from `decode_irq_char`, one at a time, heap-free.
pub fn decode_irq(cause: usize, epc: usize, entry: usize) -> (r: (usize, SbiCall))
    ensures
        r.0 == irq_message(cause, epc, entry).len(),
        r.1 == sbi::shutdown_call_spec(SBI_EXT_SYS_RESET_REASON::SystemFailure),
{
    proof {
        reveal_strlit("Internal error: Unhandled exception/irq 0x");
        reveal_strlit(" at 0x");
        reveal_strlit(" sventry 0x");
        reveal_strlit(" Shutting down...\n");
    }
    let len = "Internal error: Unhandled exception/irq 0x".unicode_len() + 16
        + " at 0x".unicode_len() + 16 + " sventry 0x".unicode_len() + 16
        + " Shutting down...\n".unicode_len();
    (len, sbi::exit(1))
}

/// The character at the given position of the exception diagnostic.
pub fn decode_irq_char(cause: usize, epc: usize, entry: usize, index: usize) -> (c: char)
    requires
        index < irq_message(cause, epc, entry).len(),
    ensures
        c == irq_message(cause, epc, entry)[index as int],
{
    proof {
        reveal_strlit("Internal error: Unhandled exception/irq 0x");
        reveal_strlit(" at 0x");
        reveal_strlit(" sventry 0x");
        reveal_strlit(" Shutting down...\n");
    }
    let s1 = "Internal error: Unhandled exception/irq 0x";
    let s2 = " at 0x";
    let s3 = " sventry 0x";
    let s4 = " Shutting down...\n";
    let b1 = s1.unicode_len();
    let b2 = b1 + 16;
    let b3 = b2 + s2.unicode_len();
    let b4 = b3 + 16;
    let b5 = b4 + s3.unicode_len();
    let b6 = b5 + 16;
    if index < b1 {
        print_string(s1, index)
    } else if index < b2 {
        print_hex(cause, index - b1)
    } else if index < b3 {
        print_string(s2, index - b2)
    } else if index < b4 {
        print_hex(epc, index - b3)
    } else if index < b5 {
        print_string(s3, index - b4)
    } else if index < b6 {
        print_hex(entry, index - b5)
    } else {
        print_string(s4, index - b6)
    }
}

/// The diagnostic for an unrecoverable allocation failure: its length in
/// characters, and the reset request that must follow it.  The
/// characters come from `alloc_failure_char`, one at a time — this path
/// runs precisely because allocation broke, so it never allocates.
pub fn alloc_failure(attempted_size: usize) -> (r: (usize, SbiCall))
    ensures
        r.0 == alloc_message(attempted_size).len(),
        r.1 == sbi::shutdown_call_spec(SBI_EXT_SYS_RESET_REASON::SystemFailure),
{
    proof {
        reveal_strlit("Internal error: Memory allocation failed, tried to allocate/free 0x");
        reveal_strlit(" bytes. Shutting down...\n");
    }
    let len = "Internal error: Memory allocation failed, tried to allocate/free 0x".unicode_len()
        + 16 + " bytes. Shutting down...\n".unicode_len();
    (len, sbi::exit(1))
}

/// The character at the given position of the allocation-failure
/// diagnostic.
pub fn alloc_failure_char(attempted_size: usize, index: usize) -> (c: char)
    requires
        index < alloc_message(attempted_size).len(),
    ensures
        c == alloc_message(attempted_size)[index as int],
{
    proof {
        reveal_strlit("Internal error: Memory allocation failed, tried to allocate/free 0x");
        reveal_strlit(" bytes. Shutting down...\n");
    }
    let s1 = "Internal error: Memory allocation failed, tried to allocate/free 0x";
    let s2 = " bytes. Shutting down...\n";
    let b1 = s1.unicode_len();
    let b2 = b1 + 16;
    if index < b1 {
        print_string(s1, index)
    } else if index < b2 {
        print_hex(attempted_size, index - b1)
    } else {
        print_string(s2, index - b2)
    }
}

} // verus!
