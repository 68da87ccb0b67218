//! The record emitter: one ordered JSON object per commit.
//!
//! The requested codes are evaluated in request order; the first error
//! aborts the record. A duplicate code keeps its first position and the
//! value of its last evaluation, per JSON-object construction. The finished
//! record is rendered as one JSON line.

use vstd::prelude::*;
use crate::codes::{FormatError, ErrSpec};
use crate::commit::CommitInfo;
use crate::interp::{interpret, spec_interpret, spec_refs_after};
use crate::json::{JsonValue, JsonVal, json_of_entries, json_obj_items, append_json_value};
use crate::refindex::RefIndex;
use crate::strutil::{str_eq, push_char};

verus! {

/// One commit's record: requested codes and their values, in key order.
pub struct Record {
    entries: Vec<(String, JsonValue)>,
}

/// The views of the record's entries.
pub open spec fn record_entry_views(s: Seq<(String, JsonValue)>) -> Seq<(Seq<char>, JsonVal)> {
    s.map_values(|e: (String, JsonValue)| (e.0@, e.1@))
}

impl View for Record {
    type V = Seq<(Seq<char>, JsonVal)>;

    closed spec fn view(&self) -> Seq<(Seq<char>, JsonVal)> {
        record_entry_views(self.entries@)
    }
}

/// The keys of a record, in order.
pub open spec fn record_keys(rec: Seq<(Seq<char>, JsonVal)>) -> Seq<Seq<char>> {
    rec.map_values(|e: (Seq<char>, JsonVal)| e.0)
}

/// No key appears twice.
pub open spec fn keys_distinct(rec: Seq<(Seq<char>, JsonVal)>) -> bool {
    forall|i: int, j: int| 0 <= i < j < rec.len() ==> rec[i].0 != rec[j].0
}

/// A key occurs in the record.
pub open spec fn has_entry(rec: Seq<(Seq<char>, JsonVal)>, k: Seq<char>) -> bool {
    exists|i: int| 0 <= i < rec.len() && #[trigger] rec[i].0 == k
}

/// Setting a key: an existing key keeps its position and takes the new
/// value; a new key goes to the end.
pub open spec fn spec_insert_entry(
    rec: Seq<(Seq<char>, JsonVal)>,
    k: Seq<char>,
    v: JsonVal,
) -> Seq<(Seq<char>, JsonVal)> {
    if has_entry(rec, k) {
        rec.update(choose|i: int| 0 <= i < rec.len() && #[trigger] rec[i].0 == k, (k, v))
    } else {
        rec.push((k, v))
    }
}

/// Building a record from the codes at positions `i` on, given the entries
/// and reference index so far: the entries on success or the first error,
/// and the reference index when evaluation stopped.
pub open spec fn spec_build_from(
    formats: Seq<Seq<char>>,
    i: int,
    rec: Seq<(Seq<char>, JsonVal)>,
    c: CommitInfo,
    refs: Map<Seq<u8>, Seq<Seq<char>>>,
) -> (Result<Seq<(Seq<char>, JsonVal)>, ErrSpec>, Map<Seq<u8>, Seq<Seq<char>>>)
    decreases formats.len() - i,
{
    if i < 0 || i >= formats.len() {
        (Result::Ok(rec), refs)
    } else {
        match spec_interpret(formats[i], c, refs) {
            Result::Ok(v) => spec_build_from(
                formats,
                i + 1,
                spec_insert_entry(rec, formats[i], v),
                c,
                spec_refs_after(formats[i], c, refs),
            ),
            Result::Err(e) => (Result::Err(e), refs),
        }
    }
}

/// Building a whole record: every requested code in request order,
/// fail-fast on the first error.
pub open spec fn spec_build(
    formats: Seq<Seq<char>>,
    c: CommitInfo,
    refs: Map<Seq<u8>, Seq<Seq<char>>>,
) -> (Result<Seq<(Seq<char>, JsonVal)>, ErrSpec>, Map<Seq<u8>, Seq<Seq<char>>>) {
    spec_build_from(formats, 0, Seq::empty(), c, refs)
}

/// Sets one key of the record.
#[verifier::loop_isolation(false)]
fn insert_entry(entries: &mut Vec<(String, JsonValue)>, k: String, v: JsonValue)
    requires
        keys_distinct(record_entry_views(old(entries)@)),
    ensures
        record_entry_views(final(entries)@) == spec_insert_entry(
            record_entry_views(old(entries)@),
            k@,
            v@,
        ),
        keys_distinct(record_entry_views(final(entries)@)),
{
    let ghost rv = record_entry_views(entries@);
    let mut j: usize = 0;
    while j < entries.len()
        invariant
            entries@ == old(entries)@,
            rv == record_entry_views(entries@),
            j <= entries@.len(),
            forall|t: int| 0 <= t < j ==> rv[t].0 != k@,
        decreases entries@.len() - j,
    {
        if str_eq(entries[j].0.as_str(), k.as_str()) {
            let _old_entry = entries.remove(j);
            entries.insert(j, (k, v));
            proof {
                assert(rv[j as int].0 == k@);
                assert(has_entry(rv, k@));
                let w = choose|i: int| 0 <= i < rv.len() && #[trigger] rv[i].0 == k@;
                assert(keys_distinct(rv));
                assert(w == j as int);
                assert(record_entry_views(entries@) =~= rv.update(j as int, (k@, v@)));
                assert(keys_distinct(record_entry_views(entries@)));
            }
            return ;
        }
        j = j + 1;
    }
    proof {
        assert(!has_entry(rv, k@));
    }
    let ghost prev = entries@;
    entries.push((k, v));
    proof {
        assert(record_entry_views(entries@) =~= record_entry_views(prev).push((k@, v@)));
        assert(keys_distinct(record_entry_views(entries@)));
    }
}

/// Builds one commit's record: every requested code in request order,
/// fail-fast on the first error, consuming the commit's reference-index
/// entry when `D` is evaluated.
#[verifier::loop_isolation(false)]
pub fn build_record(formats: &Vec<String>, c: &CommitInfo, refs: &mut RefIndex) -> (r: Result<
    Record,
    FormatError,
>)
    requires
        c.wf(),
    ensures
        ({
            let (res, refs2) = spec_build(formats.deep_view(), *c, old(refs)@);
            &&& final(refs)@ == refs2
            &&& match r {
                Result::Ok(rec) => res == Result::<_, ErrSpec>::Ok(rec@) && keys_distinct(rec@),
                Result::Err(e) => res == Result::<Seq<(Seq<char>, JsonVal)>, ErrSpec>::Err(e@),
            }
        }),
{
    let ghost fviews = formats.deep_view();
    let mut entries: Vec<(String, JsonValue)> = Vec::new();
    proof {
        assert(record_entry_views(entries@) =~= Seq::<(Seq<char>, JsonVal)>::empty());
    }
    let mut i: usize = 0;
    while i < formats.len()
        invariant
            i <= formats@.len(),
            keys_distinct(record_entry_views(entries@)),
            spec_build(fviews, *c, old(refs)@) == spec_build_from(
                fviews,
                i as int,
                record_entry_views(entries@),
                *c,
                refs@,
            ),
        decreases formats@.len() - i,
    {
        proof {
            assert(fviews[i as int] == formats@[i as int]@);
        }
        match interpret(formats[i].as_str(), c, refs) {
            Result::Ok(v) => {
                insert_entry(&mut entries, formats[i].clone(), v);
            },
            Result::Err(e) => {
                return Result::Err(e);
            },
        }
        i = i + 1;
    }
    Result::Ok(Record { entries })
}

/// Appends the `"key":value` members of the record from index `i` on.
fn append_obj_items(out: &mut String, entries: &Vec<(String, JsonValue)>, i: usize)
    requires
        i <= entries.len(),
    ensures
        final(out)@ == old(out)@ + json_obj_items(record_entry_views(entries@), i as int),
    decreases entries.len() - i,
{
    if i < entries.len() {
        if i > 0 {
            push_char(out, ',');
        }
        crate::json::append_json_str(out, entries[i].0.as_str());
        push_char(out, ':');
        append_json_value(out, &entries[i].1);
        append_obj_items(out, entries, i + 1);
        proof {
            assert(record_entry_views(entries@)[i as int] == (
                entries@[i as int].0@,
                entries@[i as int].1@,
            ));
            assert(final(out)@ =~= old(out)@ + json_obj_items(
                record_entry_views(entries@),
                i as int,
            ));
        }
    }
}

/// Renders a record as one JSON object line: keys in record order, values
/// per the interpreter's table.
pub fn record_to_line(rec: &Record) -> (r: String)
    ensures
        r@ == json_of_entries(rec@),
{
    let mut out = String::new();
    push_char(&mut out, '{');
    append_obj_items(&mut out, &rec.entries, 0);
    push_char(&mut out, '}');
    proof {
        assert(out@ =~= json_of_entries(rec@));
    }
    out
}

/// Builds and renders one commit's JSON line, fail-fast on the first error.
pub fn format_record_line(formats: &Vec<String>, c: &CommitInfo, refs: &mut RefIndex) -> (r: Result<
    String,
    FormatError,
>)
    requires
        c.wf(),
    ensures
        ({
            let (res, refs2) = spec_build(formats.deep_view(), *c, old(refs)@);
            &&& final(refs)@ == refs2
            &&& match r {
                Result::Ok(line) => res matches Result::Ok(entries) && line@ == json_of_entries(
                    entries,
                ),
                Result::Err(e) => res == Result::<Seq<(Seq<char>, JsonVal)>, ErrSpec>::Err(e@),
            }
        }),
{
    match build_record(formats, c, refs) {
        Result::Ok(rec) => Result::Ok(record_to_line(&rec)),
        Result::Err(e) => Result::Err(e),
    }
}

/// The comma-split of the character range from `start`, scanning at `i`:
/// the piece up to each separator, and the trailing piece to the end.
pub open spec fn spec_split_from(s: Seq<char>, start: int, i: int) -> Seq<Seq<char>>
    decreases s.len() - i,
{
    if i < 0 || i >= s.len() {
        seq![s.subrange(start, s.len() as int)]
    } else if s[i] == ',' {
        seq![s.subrange(start, i)] + spec_split_from(s, i + 1, i + 1)
    } else {
        spec_split_from(s, start, i + 1)
    }
}

/// The comma-separated pieces of a format list, in order; an empty list is
/// one empty piece, and empty pieces between separators are kept.
pub open spec fn spec_split(s: Seq<char>) -> Seq<Seq<char>> {
    spec_split_from(s, 0, 0)
}

/// Splits the format-list argument at commas, literally: no whitespace
/// trimming, empty pieces kept.
pub fn parse_formats(input: &str) -> (r: Vec<String>)
    ensures
        r.deep_view() == spec_split(input@),
{
    let n = input.unicode_len();
    let mut r: Vec<String> = Vec::new();
    let mut start: usize = 0;
    let mut i: usize = 0;
    while i < n
        invariant
            n == input@.len(),
            start <= i <= n,
            spec_split(input@) == r.deep_view() + spec_split_from(input@, start as int, i as int),
        decreases n - i,
    {
        if input.get_char(i) == ',' {
            let piece = input.substring_char(start, i);
            let ghost prev = r.deep_view();
            r.push(String::from_str(piece));
            proof {
                assert(r.deep_view() =~= prev.push(input@.subrange(start as int, i as int)));
                assert(prev + (seq![input@.subrange(start as int, i as int)] + spec_split_from(
                    input@,
                    i + 1,
                    i + 1,
                )) =~= r.deep_view() + spec_split_from(input@, i + 1, i + 1));
            }
            start = i + 1;
        }
        i = i + 1;
    }
    let piece = input.substring_char(start, n);
    let ghost prev = r.deep_view();
    r.push(String::from_str(piece));
    proof {
        assert(r.deep_view() =~= prev.push(input@.subrange(start as int, n as int)));
        assert(prev + seq![input@.subrange(start as int, n as int)] =~= r.deep_view());
    }
    r
}

/// A format list contains the given code.
pub open spec fn contains_code(formats: Seq<Seq<char>>, k: Seq<char>) -> bool {
    exists|i: int| 0 <= i < formats.len() && #[trigger] formats[i] == k
}

/// Whether the reference index will be read: true exactly when `D` is among
/// the requested codes.
pub fn needs_ref_index(formats: &Vec<String>) -> (r: bool)
    ensures
        r == contains_code(formats.deep_view(), "D"@),
{
    let mut i: usize = 0;
    while i < formats.len()
        invariant
            i <= formats@.len(),
            forall|j: int| 0 <= j < i ==> formats.deep_view()[j] != "D"@,
        decreases formats@.len() - i,
    {
        if str_eq(formats[i].as_str(), "D") {
            proof {
                assert(formats.deep_view()[i as int] == "D"@);
            }
            return true;
        }
        i = i + 1;
    }
    false
}

} // verus!
