//! Lowercase hex encoding of object identifiers.
//!
//! A full commit or tree hash is rendered as two lowercase hex digits per
//! raw byte, concatenated in byte order.

use vstd::prelude::*;

verus! {

/// The lowercase hex digit for a value below sixteen.
pub open spec fn hex_digit(n: int) -> char {
    if n == 0 {
        '0'
    } else if n == 1 {
        '1'
    } else if n == 2 {
        '2'
    } else if n == 3 {
        '3'
    } else if n == 4 {
        '4'
    } else if n == 5 {
        '5'
    } else if n == 6 {
        '6'
    } else if n == 7 {
        '7'
    } else if n == 8 {
        '8'
    } else if n == 9 {
        '9'
    } else if n == 10 {
        'a'
    } else if n == 11 {
        'b'
    } else if n == 12 {
        'c'
    } else if n == 13 {
        'd'
    } else if n == 14 {
        'e'
    } else {
        'f'
    }
}

/// The numeric value of a lowercase hex digit; sixteen for any other character.
pub open spec fn hex_val(c: char) -> int {
    if c == '0' {
        0
    } else if c == '1' {
        1
    } else if c == '2' {
        2
    } else if c == '3' {
        3
    } else if c == '4' {
        4
    } else if c == '5' {
        5
    } else if c == '6' {
        6
    } else if c == '7' {
        7
    } else if c == '8' {
        8
    } else if c == '9' {
        9
    } else if c == 'a' {
        10
    } else if c == 'b' {
        11
    } else if c == 'c' {
        12
    } else if c == 'd' {
        13
    } else if c == 'e' {
        14
    } else if c == 'f' {
        15
    } else {
        16
    }
}

/// Two lowercase hex digits for one byte, high nibble first.
pub open spec fn hex_of_byte(b: u8) -> Seq<char> {
    seq![hex_digit(b as int / 16), hex_digit(b as int % 16)]
}

/// The hex rendering of a byte sequence: two digits per byte, in byte order.
pub open spec fn hex_of_bytes(bs: Seq<u8>) -> Seq<char>
    decreases bs.len(),
{
    if bs.len() == 0 {
        Seq::empty()
    } else {
        hex_of_byte(bs[0]) + hex_of_bytes(bs.drop_first())
    }
}

/// The bytes read back from a hex rendering, two characters per byte.
pub open spec fn bytes_of_hex(s: Seq<char>) -> Seq<u8>
    decreases s.len(),
{
    if s.len() < 2 {
        Seq::empty()
    } else {
        seq![(hex_val(s[0]) * 16 + hex_val(s[1])) as u8] + bytes_of_hex(s.skip(2))
    }
}

proof fn lemma_hex_val_of_digit(n: int)
    requires
        0 <= n < 16,
    ensures
        hex_val(hex_digit(n)) == n,
{
}

/// Appending one byte extends the rendering by that byte's two digits.
proof fn lemma_hex_of_bytes_push(bs: Seq<u8>, b: u8)
    ensures
        hex_of_bytes(bs.push(b)) == hex_of_bytes(bs) + hex_of_byte(b),
    decreases bs.len(),
{
    if bs.len() == 0 {
        assert(bs.push(b) =~= seq![b]);
        assert(seq![b].drop_first() =~= Seq::<u8>::empty());
        assert(hex_of_bytes(seq![b]) == hex_of_byte(b) + hex_of_bytes(Seq::<u8>::empty()));
        assert(hex_of_bytes(bs.push(b)) =~= hex_of_bytes(bs) + hex_of_byte(b));
    } else {
        assert(bs.push(b).drop_first() =~= bs.drop_first().push(b));
        lemma_hex_of_bytes_push(bs.drop_first(), b);
        assert(hex_of_bytes(bs.push(b)) =~= hex_of_bytes(bs) + hex_of_byte(b));
    }
}

/// Decoding the hex rendering of any byte sequence gives the bytes back.
///
/// This is the round-trip law for the full-hash codes: the hex string they
/// produce loses no information about the identifier.
pub proof fn lemma_hex_round_trip(bs: Seq<u8>)
    ensures
        bytes_of_hex(hex_of_bytes(bs)) == bs,
    decreases bs.len(),
{
    if bs.len() == 0 {
        assert(bytes_of_hex(hex_of_bytes(bs)) =~= bs);
    } else {
        let b = bs[0];
        let s = hex_of_bytes(bs);
        assert(s == hex_of_byte(b) + hex_of_bytes(bs.drop_first()));
        assert(s.len() >= 2);
        assert(s[0] == hex_digit(b as int / 16));
        assert(s[1] == hex_digit(b as int % 16));
        lemma_hex_val_of_digit(b as int / 16);
        lemma_hex_val_of_digit(b as int % 16);
        assert(hex_val(s[0]) * 16 + hex_val(s[1]) == b as int) by {
            assert(b as int == 16 * (b as int / 16) + b as int % 16) by (nonlinear_arith);
        };
        assert(s.skip(2) =~= hex_of_bytes(bs.drop_first()));
        lemma_hex_round_trip(bs.drop_first());
        assert(bytes_of_hex(s) =~= bs);
    }
}

/// The rendering of a byte sequence has exactly two characters per byte.
pub proof fn lemma_hex_of_bytes_len(bs: Seq<u8>)
    ensures
        hex_of_bytes(bs).len() == 2 * bs.len(),
    decreases bs.len(),
{
    if bs.len() > 0 {
        lemma_hex_of_bytes_len(bs.drop_first());
    }
}

/// The lowercase hex digit character for a nibble.
pub(crate) fn hex_digit_char(n: u8) -> (c: char)
    requires
        n < 16,
    ensures
        c == hex_digit(n as int),
{
    match n {
        0 => '0',
        1 => '1',
        2 => '2',
        3 => '3',
        4 => '4',
        5 => '5',
        6 => '6',
        7 => '7',
        8 => '8',
        9 => '9',
        10 => 'a',
        11 => 'b',
        12 => 'c',
        13 => 'd',
        14 => 'e',
        _ => 'f',
    }
}

/// Renders a raw identifier as lowercase hex, two digits per byte, in byte
/// order.
pub fn bytes_to_hex(bytes: &Vec<u8>) -> (r: String)
    ensures
        r@ == hex_of_bytes(bytes@),
{
    let mut out = String::new();
    let mut i: usize = 0;
    while i < bytes.len()
        invariant
            i <= bytes.len(),
            out@ == hex_of_bytes(bytes@.take(i as int)),
        decreases bytes.len() - i,
    {
        let b = bytes[i];
        crate::strutil::push_char(&mut out, hex_digit_char(b / 16));
        crate::strutil::push_char(&mut out, hex_digit_char(b % 16));
        proof {
            assert(bytes@.take(i + 1 as int) =~= bytes@.take(i as int).push(bytes@[i as int]));
            lemma_hex_of_bytes_push(bytes@.take(i as int), bytes@[i as int]);
        }
        i = i + 1;
    }
    proof {
        assert(bytes@.take(bytes@.len() as int) =~= bytes@);
    }
    out
}

} // verus!
