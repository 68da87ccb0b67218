//! The format-code interpreter: one code, one commit, one JSON value or a
//! typed error.
//!
//! `spec_interpret` is the authoritative table: which field each supported
//! code extracts and how it is serialized, and which codes are rejected
//! with which remediation. The executable interpreter is proved to follow
//! it exactly, and to consume a commit's reference-index entry exactly when
//! the `D` code is evaluated.

use vstd::prelude::*;
use crate::codes::{classify_code, spec_classify, CodeClass, FormatCode, TextField, FormatError,
    ErrSpec};
use crate::commit::CommitInfo;
use crate::hex::{hex_of_bytes, bytes_to_hex};
use crate::json::{JsonValue, JsonVal};
use crate::refindex::RefIndex;
use crate::timefmt::{rfc3339_of, format_rfc3339};

verus! {

/// The full parent hashes, in parent order.
pub open spec fn parent_hexes(c: CommitInfo) -> Seq<Seq<char>> {
    c.parent_ids@.map_values(|p: Vec<u8>| hex_of_bytes(p@))
}

/// Every parent has an abbreviated hash.
pub open spec fn all_parent_shorts(c: CommitInfo) -> bool {
    forall|i: int| 0 <= i < c.parent_short_ids@.len() ==> c.parent_short_ids@[i] is Some
}

/// The abbreviated parent hashes, in parent order.
pub open spec fn parent_short_views(c: CommitInfo) -> Seq<Seq<char>> {
    c.parent_short_ids@.map_values(
        |o: Option<String>|
            match o {
                Option::Some(s) => s@,
                Option::None => Seq::<char>::empty(),
            },
    )
}

/// The RFC 3339 value for a timestamp: an error when the offset is a day or
/// more, or when chrono cannot represent the instant.
pub open spec fn spec_iso(seconds: int, offset_minutes: int) -> Result<JsonVal, ErrSpec> {
    if -1440 < offset_minutes < 1440 {
        match rfc3339_of(seconds, offset_minutes) {
            Option::Some(s) => Result::Ok(JsonVal::Str(s)),
            Option::None => Result::Err(ErrSpec::TimestampOutOfRange),
        }
    } else {
        Result::Err(ErrSpec::TimestampOutOfRange)
    }
}

/// What interpreting one code on one commit yields, given the current
/// reference index.
pub open spec fn spec_interpret(
    code: Seq<char>,
    c: CommitInfo,
    refs: Map<Seq<u8>, Seq<Seq<char>>>,
) -> Result<JsonVal, ErrSpec> {
    match spec_classify(code) {
        CodeClass::Supported(fc) => match fc {
            FormatCode::FullHash => Result::Ok(JsonVal::Str(hex_of_bytes(c.id@))),
            FormatCode::AbbrevHash => match c.short_id {
                Option::Some(s) => Result::Ok(JsonVal::Str(s@)),
                Option::None => Result::Err(ErrSpec::BadShortHash),
            },
            FormatCode::TreeHash => Result::Ok(JsonVal::Str(hex_of_bytes(c.tree_id@))),
            FormatCode::AbbrevTreeHash => match c.tree_short_id {
                Option::Some(s) => Result::Ok(JsonVal::Str(s@)),
                Option::None => Result::Err(ErrSpec::BadShortHash),
            },
            FormatCode::ParentHashes => Result::Ok(JsonVal::Arr(parent_hexes(c))),
            FormatCode::AbbrevParentHashes => if all_parent_shorts(c) {
                Result::Ok(JsonVal::Arr(parent_short_views(c)))
            } else {
                Result::Err(ErrSpec::BadShortHash)
            },
            FormatCode::AuthorName => match c.author_name {
                Option::Some(s) => Result::Ok(JsonVal::Str(s@)),
                Option::None => Result::Err(
                    ErrSpec::InvalidText { field: TextField::AuthorName },
                ),
            },
            FormatCode::AuthorEmail => match c.author_email {
                Option::Some(s) => Result::Ok(JsonVal::Str(s@)),
                Option::None => Result::Err(
                    ErrSpec::InvalidText { field: TextField::AuthorEmail },
                ),
            },
            FormatCode::AuthorTimestamp => Result::Ok(JsonVal::Num(c.author_seconds as int)),
            FormatCode::AuthorIso => spec_iso(
                c.author_seconds as int,
                c.author_offset_minutes as int,
            ),
            FormatCode::CommitTimestamp => Result::Ok(JsonVal::Num(c.commit_seconds as int)),
            FormatCode::CommitIso => spec_iso(
                c.commit_seconds as int,
                c.commit_offset_minutes as int,
            ),
            FormatCode::RefNames => Result::Ok(
                JsonVal::Arr(
                    if refs.contains_key(c.id@) {
                        refs[c.id@]
                    } else {
                        Seq::empty()
                    },
                ),
            ),
            FormatCode::Summary => match c.summary {
                Option::Some(s) => Result::Ok(JsonVal::Str(s@)),
                Option::None => Result::Err(ErrSpec::InvalidText { field: TextField::Summary }),
            },
            FormatCode::FullMessage => match c.message {
                Option::Some(s) => Result::Ok(JsonVal::Str(s@)),
                Option::None => Result::Err(ErrSpec::InvalidText { field: TextField::Message }),
            },
        },
        CodeClass::Rejected(kind) => Result::Err(ErrSpec::Unsupported { code: code, kind: kind }),
    }
}

/// The reference index after one code is interpreted: the commit's entry is
/// consumed exactly when the code is `D`.
pub open spec fn spec_refs_after(
    code: Seq<char>,
    c: CommitInfo,
    refs: Map<Seq<u8>, Seq<Seq<char>>>,
) -> Map<Seq<u8>, Seq<Seq<char>>> {
    if spec_classify(code) == CodeClass::Supported(FormatCode::RefNames) {
        refs.remove(c.id@)
    } else {
        refs
    }
}

/// The mathematical shape of an interpreter result.
pub open spec fn res_view(r: Result<JsonValue, FormatError>) -> Result<JsonVal, ErrSpec> {
    match r {
        Result::Ok(v) => Result::Ok(v@),
        Result::Err(e) => Result::Err(e@),
    }
}

/// Interprets one format code against one commit, consuming the commit's
/// reference-index entry when the code is `D`.
#[verifier::loop_isolation(false)]
pub fn interpret(code: &str, c: &CommitInfo, refs: &mut RefIndex) -> (r: Result<
    JsonValue,
    FormatError,
>)
    requires
        c.wf(),
    ensures
        res_view(r) == spec_interpret(code@, *c, old(refs)@),
        final(refs)@ == spec_refs_after(code@, *c, old(refs)@),
{
    match classify_code(code) {
        CodeClass::Supported(fc) => match fc {
            FormatCode::FullHash => Result::Ok(JsonValue::Str(bytes_to_hex(&c.id))),
            FormatCode::AbbrevHash => match &c.short_id {
                Option::Some(s) => Result::Ok(JsonValue::Str(s.clone())),
                Option::None => Result::Err(FormatError::BadShortHash),
            },
            FormatCode::TreeHash => Result::Ok(JsonValue::Str(bytes_to_hex(&c.tree_id))),
            FormatCode::AbbrevTreeHash => match &c.tree_short_id {
                Option::Some(s) => Result::Ok(JsonValue::Str(s.clone())),
                Option::None => Result::Err(FormatError::BadShortHash),
            },
            FormatCode::ParentHashes => {
                let mut hashes: Vec<String> = Vec::new();
                let mut i: usize = 0;
                while i < c.parent_ids.len()
                    invariant
                        refs@ == old(refs)@,
                        i <= c.parent_ids@.len(),
                        hashes.deep_view() == c.parent_ids@.take(i as int).map_values(
                            |p: Vec<u8>| hex_of_bytes(p@),
                        ),
                    decreases c.parent_ids@.len() - i,
                {
                    let ghost prev = hashes.deep_view();
                    hashes.push(bytes_to_hex(&c.parent_ids[i]));
                    proof {
                        assert(hashes.deep_view() =~= prev.push(
                            hex_of_bytes(c.parent_ids@[i as int]@),
                        ));
                        assert(c.parent_ids@.take(i + 1 as int).map_values(
                            |p: Vec<u8>| hex_of_bytes(p@),
                        ) =~= prev.push(hex_of_bytes(c.parent_ids@[i as int]@)));
                    }
                    i = i + 1;
                }
                proof {
                    assert(c.parent_ids@.take(c.parent_ids@.len() as int) =~= c.parent_ids@);
                }
                Result::Ok(JsonValue::Arr(hashes))
            },
            FormatCode::AbbrevParentHashes => {
                let mut hashes: Vec<String> = Vec::new();
                let mut i: usize = 0;
                while i < c.parent_short_ids.len()
                    invariant
                        refs@ == old(refs)@,
                        i <= c.parent_short_ids@.len(),
                        forall|j: int| 0 <= j < i ==> c.parent_short_ids@[j] is Some,
                        hashes.deep_view() == c.parent_short_ids@.take(i as int).map_values(
                            |o: Option<String>|
                                match o {
                                    Option::Some(s) => s@,
                                    Option::None => Seq::<char>::empty(),
                                },
                        ),
                    decreases c.parent_short_ids@.len() - i,
                {
                    let ghost prev = hashes.deep_view();
                    match &c.parent_short_ids[i] {
                        Option::Some(s) => {
                            hashes.push(s.clone());
                        },
                        Option::None => {
                            proof {
                                assert(!(c.parent_short_ids@[i as int] is Some));
                                assert(!all_parent_shorts(*c));
                            }
                            return Result::Err(FormatError::BadShortHash);
                        },
                    }
                    proof {
                        assert(hashes.deep_view() =~= prev.push(
                            match c.parent_short_ids@[i as int] {
                                Option::Some(s) => s@,
                                Option::None => Seq::<char>::empty(),
                            },
                        ));
                        assert(c.parent_short_ids@.take(i + 1 as int).map_values(
                            |o: Option<String>|
                                match o {
                                    Option::Some(s) => s@,
                                    Option::None => Seq::<char>::empty(),
                                },
                        ) =~= hashes.deep_view());
                    }
                    i = i + 1;
                }
                proof {
                    assert(c.parent_short_ids@.take(c.parent_short_ids@.len() as int)
                        =~= c.parent_short_ids@);
                }
                Result::Ok(JsonValue::Arr(hashes))
            },
            FormatCode::AuthorName => match &c.author_name {
                Option::Some(s) => Result::Ok(JsonValue::Str(s.clone())),
                Option::None => Result::Err(
                    FormatError::InvalidText { field: TextField::AuthorName },
                ),
            },
            FormatCode::AuthorEmail => match &c.author_email {
                Option::Some(s) => Result::Ok(JsonValue::Str(s.clone())),
                Option::None => Result::Err(
                    FormatError::InvalidText { field: TextField::AuthorEmail },
                ),
            },
            FormatCode::AuthorTimestamp => Result::Ok(JsonValue::Num(c.author_seconds)),
            FormatCode::AuthorIso => iso_value(c.author_seconds, c.author_offset_minutes),
            FormatCode::CommitTimestamp => Result::Ok(JsonValue::Num(c.commit_seconds)),
            FormatCode::CommitIso => iso_value(c.commit_seconds, c.commit_offset_minutes),
            FormatCode::RefNames => {
                let names = refs.remove(&c.id);
                Result::Ok(JsonValue::Arr(names))
            },
            FormatCode::Summary => match &c.summary {
                Option::Some(s) => Result::Ok(JsonValue::Str(s.clone())),
                Option::None => Result::Err(
                    FormatError::InvalidText { field: TextField::Summary },
                ),
            },
            FormatCode::FullMessage => match &c.message {
                Option::Some(s) => Result::Ok(JsonValue::Str(s.clone())),
                Option::None => Result::Err(
                    FormatError::InvalidText { field: TextField::Message },
                ),
            },
        },
        CodeClass::Rejected(kind) => Result::Err(
            FormatError::Unsupported { code: code.to_owned(), kind: kind },
        ),
    }
}

/// Renders one timestamp as an RFC 3339 JSON value, or the out-of-range
/// error.
fn iso_value(seconds: i64, offset_minutes: i32) -> (r: Result<JsonValue, FormatError>)
    ensures
        res_view(r) == spec_iso(seconds as int, offset_minutes as int),
{
    if -1440 < offset_minutes && offset_minutes < 1440 {
        match format_rfc3339(seconds, offset_minutes) {
            Option::Some(s) => Result::Ok(JsonValue::Str(s)),
            Option::None => Result::Err(FormatError::TimestampOutOfRange),
        }
    } else {
        Result::Err(FormatError::TimestampOutOfRange)
    }
}

} // verus!
