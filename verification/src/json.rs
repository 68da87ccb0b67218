//! The JSON values a record can hold, and their one-line serialization.
//!
//! The interpreter only ever produces strings, integers and arrays of
//! strings, so the value model is closed over exactly those shapes. The
//! serializer renders a record as a single JSON object line: keys in record
//! order, strings escaped as JSON demands.

use vstd::prelude::*;
use crate::hex::hex_digit;
use crate::strutil::push_char;

verus! {

/// A JSON value as the interpreter produces it.
#[derive(Debug)]
pub enum JsonValue {
    /// A JSON string.
    Str(String),
    /// A JSON integer (timestamps in POSIX seconds).
    Num(i64),
    /// A JSON array of strings (parent hashes, reference names).
    Arr(Vec<String>),
}

/// The mathematical shape of a `JsonValue`.
pub enum JsonVal {
    Str(Seq<char>),
    Num(int),
    Arr(Seq<Seq<char>>),
}

impl View for JsonValue {
    type V = JsonVal;

    open spec fn view(&self) -> JsonVal {
        match self {
            JsonValue::Str(s) => JsonVal::Str(s@),
            JsonValue::Num(n) => JsonVal::Num(*n as int),
            JsonValue::Arr(a) => JsonVal::Arr(a.deep_view()),
        }
    }
}

/// The JSON escape of one character: the two-character escapes for quote,
/// backslash and the named control characters, `\u00..` for the other
/// control characters, and the character itself otherwise.
pub open spec fn escape_char(c: char) -> Seq<char> {
    if c == '"' {
        seq!['\\', '"']
    } else if c == '\\' {
        seq!['\\', '\\']
    } else if c == '\u{8}' {
        seq!['\\', 'b']
    } else if c == '\t' {
        seq!['\\', 't']
    } else if c == '\n' {
        seq!['\\', 'n']
    } else if c == '\u{c}' {
        seq!['\\', 'f']
    } else if c == '\r' {
        seq!['\\', 'r']
    } else if (c as int) < 32 {
        seq!['\\', 'u', '0', '0', hex_digit(c as int / 16), hex_digit(c as int % 16)]
    } else {
        seq![c]
    }
}

/// The JSON escape of a whole string body.
pub open spec fn escape_str(s: Seq<char>) -> Seq<char>
    decreases s.len(),
{
    if s.len() == 0 {
        Seq::empty()
    } else {
        escape_char(s[0]) + escape_str(s.drop_first())
    }
}

/// A JSON string literal: the escaped body between double quotes.
pub open spec fn json_of_str(s: Seq<char>) -> Seq<char> {
    seq!['"'] + escape_str(s) + seq!['"']
}

/// The decimal digits of a natural number, most significant first.
pub open spec fn dec_of_nat(n: int) -> Seq<char>
    decreases n,
{
    if n < 10 {
        seq![hex_digit(if n < 0 { 0 } else { n })]
    } else {
        dec_of_nat(n / 10) + seq![hex_digit(n % 10)]
    }
}

/// The decimal rendering of an integer, with a leading minus when negative.
pub open spec fn dec_of_int(n: int) -> Seq<char> {
    if n < 0 {
        seq!['-'] + dec_of_nat(-n)
    } else {
        dec_of_nat(n)
    }
}

/// The comma-separated bodies of a JSON array of strings, from index `i` on.
pub open spec fn json_arr_items(a: Seq<Seq<char>>, i: int) -> Seq<char>
    decreases a.len() - i,
{
    if i < 0 || i >= a.len() {
        Seq::empty()
    } else {
        (if i == 0 {
            Seq::<char>::empty()
        } else {
            seq![',']
        }) + json_of_str(a[i]) + json_arr_items(a, i + 1)
    }
}

/// The one-line JSON rendering of a value.
pub open spec fn json_of_val(v: JsonVal) -> Seq<char> {
    match v {
        JsonVal::Str(s) => json_of_str(s),
        JsonVal::Num(n) => dec_of_int(n),
        JsonVal::Arr(a) => seq!['['] + json_arr_items(a, 0) + seq![']'],
    }
}

/// The comma-separated `"key":value` members of a JSON object, from index
/// `i` on.
pub open spec fn json_obj_items(entries: Seq<(Seq<char>, JsonVal)>, i: int) -> Seq<char>
    decreases entries.len() - i,
{
    if i < 0 || i >= entries.len() {
        Seq::empty()
    } else {
        (if i == 0 {
            Seq::<char>::empty()
        } else {
            seq![',']
        }) + json_of_str(entries[i].0) + seq![':'] + json_of_val(entries[i].1) + json_obj_items(
            entries,
            i + 1,
        )
    }
}

/// The one-line JSON object for a sequence of key/value entries, keys in
/// entry order.
pub open spec fn json_of_entries(entries: Seq<(Seq<char>, JsonVal)>) -> Seq<char> {
    seq!['{'] + json_obj_items(entries, 0) + seq!['}']
}

/// Appends the JSON escape of `s` to `out`.
fn append_escaped(out: &mut String, s: &str)
    ensures
        final(out)@ == old(out)@ + escape_str(s@),
{
    let n = s.unicode_len();
    let mut i: usize = 0;
    while i < n
        invariant
            n == s@.len(),
            i <= n,
            out@ == old(out)@ + escape_str(s@.take(i as int)),
        decreases n - i,
    {
        let c = s.get_char(i);
        if c == '"' {
            push_char(out, '\\');
            push_char(out, '"');
        } else if c == '\\' {
            push_char(out, '\\');
            push_char(out, '\\');
        } else if c == '\u{8}' {
            push_char(out, '\\');
            push_char(out, 'b');
        } else if c == '\t' {
            push_char(out, '\\');
            push_char(out, 't');
        } else if c == '\n' {
            push_char(out, '\\');
            push_char(out, 'n');
        } else if c == '\u{c}' {
            push_char(out, '\\');
            push_char(out, 'f');
        } else if c == '\r' {
            push_char(out, '\\');
            push_char(out, 'r');
        } else if (c as u32) < 32 {
            push_char(out, '\\');
            push_char(out, 'u');
            push_char(out, '0');
            push_char(out, '0');
            push_char(out, crate::hex::hex_digit_char((c as u32 / 16) as u8));
            push_char(out, crate::hex::hex_digit_char((c as u32 % 16) as u8));
        } else {
            push_char(out, c);
        }
        proof {
            lemma_escape_str_push(s@.take(i as int), s@[i as int]);
            assert(s@.take(i + 1 as int) =~= s@.take(i as int).push(s@[i as int]));
            assert(out@ =~= old(out)@ + escape_str(s@.take(i as int)) + escape_char(
                s@[i as int],
            ));
        }
        i = i + 1;
    }
    proof {
        assert(s@.take(n as int) =~= s@);
    }
}

/// Escaping a string one character longer appends that character's escape.
proof fn lemma_escape_str_push(s: Seq<char>, c: char)
    ensures
        escape_str(s.push(c)) == escape_str(s) + escape_char(c),
    decreases s.len(),
{
    if s.len() == 0 {
        assert(s.push(c) =~= seq![c]);
        assert(seq![c].drop_first() =~= Seq::<char>::empty());
        assert(escape_str(seq![c]) == escape_char(c) + escape_str(Seq::<char>::empty()));
        assert(escape_str(s.push(c)) =~= escape_str(s) + escape_char(c));
    } else {
        assert(s.push(c).drop_first() =~= s.drop_first().push(c));
        lemma_escape_str_push(s.drop_first(), c);
        assert(escape_str(s.push(c)) =~= escape_str(s) + escape_char(c));
    }
}

/// Appends the JSON string literal for `s` to `out`.
pub fn append_json_str(out: &mut String, s: &str)
    ensures
        final(out)@ == old(out)@ + json_of_str(s@),
{
    push_char(out, '"');
    append_escaped(out, s);
    push_char(out, '"');
    proof {
        assert(final(out)@ =~= old(out)@ + json_of_str(s@));
    }
}

/// Appends the decimal digits of `n` to `out`, most significant first.
fn append_dec_u64(out: &mut String, n: u64)
    ensures
        final(out)@ == old(out)@ + dec_of_nat(n as int),
    decreases n,
{
    if n < 10 {
        push_char(out, crate::hex::hex_digit_char(n as u8));
    } else {
        append_dec_u64(out, n / 10);
        push_char(out, crate::hex::hex_digit_char((n % 10) as u8));
        proof {
            assert(final(out)@ =~= old(out)@ + dec_of_nat(n as int));
        }
    }
}

/// Appends the decimal rendering of `n` to `out`.
fn append_dec_i64(out: &mut String, n: i64)
    ensures
        final(out)@ == old(out)@ + dec_of_int(n as int),
{
    if n >= 0 {
        append_dec_u64(out, n as u64);
    } else {
        push_char(out, '-');
        let magnitude: u64 = ((-(n + 1)) as u64) + 1;
        assert(magnitude as int == -(n as int));
        append_dec_u64(out, magnitude);
        proof {
            assert(final(out)@ =~= old(out)@ + dec_of_int(n as int));
        }
    }
}

/// Appends the members of a JSON array of strings, from index `i` on.
fn append_arr_items(out: &mut String, a: &Vec<String>, i: usize)
    requires
        i <= a.len(),
    ensures
        final(out)@ == old(out)@ + json_arr_items(a.deep_view(), i as int),
    decreases a.len() - i,
{
    if i < a.len() {
        if i > 0 {
            push_char(out, ',');
        }
        append_json_str(out, a[i].as_str());
        append_arr_items(out, a, i + 1);
        proof {
            assert(a.deep_view()[i as int] == a@[i as int]@);
            assert(final(out)@ =~= old(out)@ + json_arr_items(a.deep_view(), i as int));
        }
    }
}

/// Appends the one-line JSON rendering of `v` to `out`.
pub fn append_json_value(out: &mut String, v: &JsonValue)
    ensures
        final(out)@ == old(out)@ + json_of_val(v@),
{
    match v {
        JsonValue::Str(s) => {
            append_json_str(out, s.as_str());
        },
        JsonValue::Num(n) => {
            append_dec_i64(out, *n);
        },
        JsonValue::Arr(a) => {
            push_char(out, '[');
            append_arr_items(out, a, 0);
            push_char(out, ']');
            proof {
                assert(final(out)@ =~= old(out)@ + json_of_val(v@));
            }
        },
    }
}

} // verus!
