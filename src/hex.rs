use vstd::prelude::*;

verus! {

/// The lowercase hexadecimal digit for `d`, for `d < 16`.
pub open spec fn hex_char(d: nat) -> char {
    if d < 10 {
        ((d + 48) as u8) as char
    } else {
        ((d + 87) as u8) as char
    }
}

/// Whether `c` is a hexadecimal digit, in either case.
pub open spec fn is_hex_char(c: char) -> bool {
    ('0' <= c && c <= '9') || ('a' <= c && c <= 'f') || ('A' <= c && c <= 'F')
}

/// The value of a hexadecimal digit.
pub open spec fn hex_digit_value(c: char) -> nat {
    if '0' <= c && c <= '9' {
        (c as nat - 48) as nat
    } else if 'a' <= c && c <= 'f' {
        (c as nat - 87) as nat
    } else if 'A' <= c && c <= 'F' {
        (c as nat - 55) as nat
    } else {
        0
    }
}

/// The number that a string of hexadecimal digits denotes, most significant first.
pub open spec fn hex_value(s: Seq<char>) -> nat
    decreases s.len(),
{
    if s.len() == 0 {
        0
    } else {
        16 * hex_value(s.drop_last()) + hex_digit_value(s.last())
    }
}

/// `n` as exactly four lowercase hex digits (the low 16 bits of `n`).
pub open spec fn hex4(n: nat) -> Seq<char> {
    seq![
        hex_char((n / 4096) % 16),
        hex_char((n / 256) % 16),
        hex_char((n / 16) % 16),
        hex_char(n % 16),
    ]
}

/// `n` as exactly two lowercase hex digits (the low 8 bits of `n`).
pub open spec fn hex2(n: nat) -> Seq<char> {
    seq![hex_char((n / 16) % 16), hex_char(n % 16)]
}

pub proof fn lemma_hex_char_value(d: nat)
    requires
        d < 16,
    ensures
        is_hex_char(hex_char(d)),
        hex_digit_value(hex_char(d)) == d,
{
}

/// Reading back four digits written by `hex4` gives the number, when it fits in 16 bits.
pub proof fn lemma_hex4_round_trip(n: nat)
    requires
        n < 0x10000,
    ensures
        hex_value(hex4(n)) == n,
{
    let s = hex4(n);
    lemma_hex_char_value((n / 4096) % 16);
    lemma_hex_char_value((n / 256) % 16);
    lemma_hex_char_value((n / 16) % 16);
    lemma_hex_char_value(n % 16);
    assert(s.drop_last().drop_last().drop_last().drop_last() =~= Seq::<char>::empty());
    reveal_with_fuel(hex_value, 5);
    assert(hex_value(s) == 16 * (16 * (16 * ((n / 4096) % 16) + (n / 256) % 16) + (n / 16) % 16)
        + n % 16);
    assert(16 * (16 * (16 * ((n / 4096) % 16) + (n / 256) % 16) + (n / 16) % 16) + n % 16 == n)
        by (nonlinear_arith)
        requires
            n < 0x10000,
    ;
}

/// Reading back two digits written by `hex2` gives the number, when it fits in 8 bits.
pub proof fn lemma_hex2_round_trip(n: nat)
    requires
        n < 0x100,
    ensures
        hex_value(hex2(n)) == n,
{
    let s = hex2(n);
    lemma_hex_char_value((n / 16) % 16);
    lemma_hex_char_value(n % 16);
    assert(s.drop_last().drop_last() =~= Seq::<char>::empty());
    reveal_with_fuel(hex_value, 3);
    assert(16 * ((n / 16) % 16) + n % 16 == n) by (nonlinear_arith)
        requires
            n < 0x100,
    ;
}

/// The hex digit for the low four bits of `d`.
pub fn hex_digit(d: u64) -> (c: char)
    requires
        d < 16,
    ensures
        c == hex_char(d as nat),
{
    if d < 10 {
        ((d + 48) as u8) as char
    } else {
        ((d + 87) as u8) as char
    }
}

/// Appends `n` as four lowercase hex digits.
pub fn push_hex4(out: &mut Vec<char>, n: u64)
    ensures
        final(out)@ == old(out)@ + hex4(n as nat),
{
    out.push(hex_digit((n / 4096) % 16));
    out.push(hex_digit((n / 256) % 16));
    out.push(hex_digit((n / 16) % 16));
    out.push(hex_digit(n % 16));
    assert(final(out)@ =~= old(out)@ + hex4(n as nat));
}

/// Appends `n` as two lowercase hex digits.
pub fn push_hex2(out: &mut Vec<char>, n: u8)
    ensures
        final(out)@ == old(out)@ + hex2(n as nat),
{
    out.push(hex_digit((n as u64 / 16) % 16));
    out.push(hex_digit(n as u64 % 16));
    assert(final(out)@ =~= old(out)@ + hex2(n as nat));
}

} // verus!
