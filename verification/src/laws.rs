//! The library-wide laws, stated and proved against the interpreter's and
//! emitter's contracts.

use vstd::prelude::*;
use crate::codes::{spec_classify, spec_message, CodeClass, FormatCode, UnsupportedKind, ErrSpec};
use crate::commit::CommitInfo;
use crate::emit::{spec_build, spec_build_from, spec_insert_entry, has_entry, keys_distinct,
    record_keys};
use crate::hex::hex_of_bytes;
use crate::interp::{spec_interpret, spec_refs_after, parent_hexes, parent_short_views,
    all_parent_shorts};
use crate::json::JsonVal;
use crate::strutil::contains_seq;

verus! {

/// The classification of `P` and `p`.
proof fn lemma_classify_parents()
    ensures
        spec_classify("P"@) == CodeClass::Supported(FormatCode::ParentHashes),
        spec_classify("p"@) == CodeClass::Supported(FormatCode::AbbrevParentHashes),
{
    reveal_strlit("H");
    reveal_strlit("h");
    reveal_strlit("T");
    reveal_strlit("t");
    reveal_strlit("P");
    reveal_strlit("p");
    assert("P"@.len() == 1);
    assert("P"@[0] != "H"@[0]);
    assert("P"@ != "H"@);
    assert("P"@[0] != "h"@[0]);
    assert("P"@ != "h"@);
    assert("P"@[0] != "T"@[0]);
    assert("P"@ != "T"@);
    assert("P"@[0] != "t"@[0]);
    assert("P"@ != "t"@);
    assert("p"@.len() == 1);
    assert("p"@[0] != "H"@[0]);
    assert("p"@ != "H"@);
    assert("p"@[0] != "h"@[0]);
    assert("p"@ != "h"@);
    assert("p"@[0] != "T"@[0]);
    assert("p"@ != "T"@);
    assert("p"@[0] != "t"@[0]);
    assert("p"@ != "t"@);
    assert("p"@[0] != "P"@[0]);
    assert("p"@ != "P"@);
}

/// The classification of `aN`.
proof fn lemma_classify_mailmap()
    ensures
        spec_classify("aN"@) == CodeClass::Rejected(UnsupportedKind::Mailmap),
{
    reveal_strlit("H");
    reveal_strlit("h");
    reveal_strlit("T");
    reveal_strlit("t");
    reveal_strlit("P");
    reveal_strlit("p");
    reveal_strlit("an");
    reveal_strlit("ae");
    reveal_strlit("aN");
    assert("aN"@.len() == 2);
    assert("H"@.len() == 1);
    assert("aN"@ != "H"@);
    assert("h"@.len() == 1);
    assert("aN"@ != "h"@);
    assert("T"@.len() == 1);
    assert("aN"@ != "T"@);
    assert("t"@.len() == 1);
    assert("aN"@ != "t"@);
    assert("P"@.len() == 1);
    assert("aN"@ != "P"@);
    assert("p"@.len() == 1);
    assert("aN"@ != "p"@);
    assert("aN"@[1] != "an"@[1]);
    assert("aN"@ != "an"@);
    assert("aN"@[1] != "ae"@[1]);
    assert("aN"@ != "ae"@);
}

/// The classification of `D`.
#[verifier::rlimit(50)]
proof fn lemma_classify_refnames()
    ensures
        spec_classify("D"@) == CodeClass::Supported(FormatCode::RefNames),
{
    reveal_strlit("H");
    reveal_strlit("h");
    reveal_strlit("T");
    reveal_strlit("t");
    reveal_strlit("P");
    reveal_strlit("p");
    reveal_strlit("an");
    reveal_strlit("ae");
    reveal_strlit("aN");
    reveal_strlit("aE");
    reveal_strlit("at");
    reveal_strlit("aI");
    reveal_strlit("ad");
    reveal_strlit("aD");
    reveal_strlit("ar");
    reveal_strlit("ai");
    reveal_strlit("ct");
    reveal_strlit("cI");
    reveal_strlit("cd");
    reveal_strlit("cD");
    reveal_strlit("cr");
    reveal_strlit("ci");
    reveal_strlit("d");
    reveal_strlit("D");
    assert("D"@.len() == 1);
    assert("D"@[0] != "H"@[0]);
    assert("D"@ != "H"@);
    assert("D"@[0] != "h"@[0]);
    assert("D"@ != "h"@);
    assert("D"@[0] != "T"@[0]);
    assert("D"@ != "T"@);
    assert("D"@[0] != "t"@[0]);
    assert("D"@ != "t"@);
    assert("D"@[0] != "P"@[0]);
    assert("D"@ != "P"@);
    assert("D"@[0] != "p"@[0]);
    assert("D"@ != "p"@);
    assert("an"@.len() == 2);
    assert("D"@ != "an"@);
    assert("ae"@.len() == 2);
    assert("D"@ != "ae"@);
    assert("aN"@.len() == 2);
    assert("D"@ != "aN"@);
    assert("aE"@.len() == 2);
    assert("D"@ != "aE"@);
    assert("at"@.len() == 2);
    assert("D"@ != "at"@);
    assert("aI"@.len() == 2);
    assert("D"@ != "aI"@);
    assert("ad"@.len() == 2);
    assert("D"@ != "ad"@);
    assert("aD"@.len() == 2);
    assert("D"@ != "aD"@);
    assert("ar"@.len() == 2);
    assert("D"@ != "ar"@);
    assert("ai"@.len() == 2);
    assert("D"@ != "ai"@);
    assert("ct"@.len() == 2);
    assert("D"@ != "ct"@);
    assert("cI"@.len() == 2);
    assert("D"@ != "cI"@);
    assert("cd"@.len() == 2);
    assert("D"@ != "cd"@);
    assert("cD"@.len() == 2);
    assert("D"@ != "cD"@);
    assert("cr"@.len() == 2);
    assert("D"@ != "cr"@);
    assert("ci"@.len() == 2);
    assert("D"@ != "ci"@);
    assert("D"@[0] != "d"@[0]);
    assert("D"@ != "d"@);
}

/// For every commit, `P` yields one full parent hash per parent, in parent
/// order — the empty array exactly for a root commit — and `p`, whenever
/// every parent has an abbreviated hash, yields one abbreviation per parent
/// in the same order.
pub proof fn lemma_parent_arrays(c: CommitInfo, refs: Map<Seq<u8>, Seq<Seq<char>>>)
    requires
        c.wf(),
    ensures
        spec_interpret("P"@, c, refs) == Result::<JsonVal, ErrSpec>::Ok(
            JsonVal::Arr(parent_hexes(c)),
        ),
        parent_hexes(c).len() == c.parent_ids@.len(),
        forall|i: int|
            0 <= i < c.parent_ids@.len() ==> parent_hexes(c)[i] == hex_of_bytes(
                c.parent_ids@[i]@,
            ),
        all_parent_shorts(c) ==> spec_interpret("p"@, c, refs) == Result::<JsonVal, ErrSpec>::Ok(
            JsonVal::Arr(parent_short_views(c)),
        ),
        parent_short_views(c).len() == c.parent_ids@.len(),
        c.parent_ids@.len() == 0 ==> spec_interpret("P"@, c, refs) == Result::<
            JsonVal,
            ErrSpec,
        >::Ok(JsonVal::Arr(Seq::empty())),
        c.parent_ids@.len() == 0 ==> spec_interpret("p"@, c, refs) == Result::<
            JsonVal,
            ErrSpec,
        >::Ok(JsonVal::Arr(Seq::empty())),
{
    lemma_classify_parents();
    if c.parent_ids@.len() == 0 {
        assert(parent_hexes(c) =~= Seq::<Seq<char>>::empty());
        assert(parent_short_views(c) =~= Seq::<Seq<char>>::empty());
    }
}

/// Requesting `aN` never yields a value: it fails with the mailmap
/// rejection, and the diagnostic contains both the offending code and the
/// word naming what is unsupported.
pub proof fn lemma_mailmap_rejected(c: CommitInfo, refs: Map<Seq<u8>, Seq<Seq<char>>>)
    ensures
        spec_interpret("aN"@, c, refs) == Result::<JsonVal, ErrSpec>::Err(
            ErrSpec::Unsupported { code: "aN"@, kind: UnsupportedKind::Mailmap },
        ),
        contains_seq(
            spec_message(ErrSpec::Unsupported { code: "aN"@, kind: UnsupportedKind::Mailmap }),
            "aN"@,
        ),
        contains_seq(
            spec_message(ErrSpec::Unsupported { code: "aN"@, kind: UnsupportedKind::Mailmap }),
            "Mailmaps"@,
        ),
{
    lemma_classify_mailmap();
    reveal_strlit("Invalid format `");
    reveal_strlit("`: ");
    reveal_strlit("aN");
    reveal_strlit("Mailmaps");
    reveal_strlit(
        "Mailmaps not currently supported, consider using `an`/`ae` instead of `aN`/`aE`",
    );
    let msg = spec_message(ErrSpec::Unsupported { code: "aN"@, kind: UnsupportedKind::Mailmap });
    assert(msg.subrange(16, 16 + "aN"@.len() as int) =~= "aN"@);
    assert(contains_seq(msg, "aN"@));
    assert(msg.subrange(21, 21 + "Mailmaps"@.len() as int) =~= "Mailmaps"@);
    assert(contains_seq(msg, "Mailmaps"@));
}

/// Reference names are consumed with their commit: evaluating `D` removes
/// exactly that commit's entry, a later read for a different commit sees
/// its own names unchanged, and a later read for the same commit yields the
/// empty array.
pub proof fn lemma_refs_consumed(
    c1: CommitInfo,
    c2: CommitInfo,
    refs: Map<Seq<u8>, Seq<Seq<char>>>,
)
    requires
        c1.id@ != c2.id@,
    ensures
        spec_refs_after("D"@, c1, refs) == refs.remove(c1.id@),
        spec_interpret("D"@, c2, refs.remove(c1.id@)) == spec_interpret("D"@, c2, refs),
        spec_interpret("D"@, c1, refs.remove(c1.id@)) == Result::<JsonVal, ErrSpec>::Ok(
            JsonVal::Arr(Seq::empty()),
        ),
{
    lemma_classify_refnames();
}

/// The distinct members of `s` from position `i` on, each at its first
/// occurrence, skipping those already `seen`.
pub open spec fn spec_dedup_from(s: Seq<Seq<char>>, i: int, seen: Seq<Seq<char>>) -> Seq<Seq<char>>
    decreases s.len() - i,
{
    if i < 0 || i >= s.len() {
        Seq::empty()
    } else if seen.contains(s[i]) {
        spec_dedup_from(s, i + 1, seen)
    } else {
        seq![s[i]] + spec_dedup_from(s, i + 1, seen.push(s[i]))
    }
}

/// The distinct members of `s`, in first-occurrence order.
pub open spec fn spec_dedup(s: Seq<Seq<char>>) -> Seq<Seq<char>> {
    spec_dedup_from(s, 0, Seq::empty())
}

proof fn lemma_build_keys_from(
    formats: Seq<Seq<char>>,
    i: int,
    rec: Seq<(Seq<char>, JsonVal)>,
    c: CommitInfo,
    refs: Map<Seq<u8>, Seq<Seq<char>>>,
)
    requires
        0 <= i <= formats.len(),
        keys_distinct(rec),
    ensures
        ({
            let (res, r2) = spec_build_from(formats, i, rec, c, refs);
            res matches Result::Ok(rec2) ==> record_keys(rec2) == record_keys(rec)
                + spec_dedup_from(formats, i, record_keys(rec))
        }),
    decreases formats.len() - i,
{
    if i >= formats.len() {
        assert(record_keys(rec) + spec_dedup_from(formats, i, record_keys(rec)) =~= record_keys(
            rec,
        ));
    } else {
        match spec_interpret(formats[i], c, refs) {
            Result::Ok(v) => {
                let k = formats[i];
                let rec2 = spec_insert_entry(rec, k, v);
                let refs2 = spec_refs_after(formats[i], c, refs);
                if has_entry(rec, k) {
                    let w = choose|t: int| 0 <= t < rec.len() && #[trigger] rec[t].0 == k;
                    assert(record_keys(rec)[w] == k);
                    assert(record_keys(rec).contains(k));
                    assert(record_keys(rec2) =~= record_keys(rec));
                    assert(keys_distinct(rec2)) by {
                        assert(forall|a: int| 0 <= a < rec2.len() ==> rec2[a].0 == record_keys(
                            rec2,
                        )[a]);
                    };
                    lemma_build_keys_from(formats, i + 1, rec2, c, refs2);
                    assert(spec_dedup_from(formats, i, record_keys(rec)) == spec_dedup_from(
                        formats,
                        i + 1,
                        record_keys(rec),
                    ));
                } else {
                    assert(!record_keys(rec).contains(k)) by {
                        if record_keys(rec).contains(k) {
                            let w = choose|t: int|
                                0 <= t < record_keys(rec).len() && record_keys(rec)[t] == k;
                            assert(rec[w].0 == k);
                            assert(has_entry(rec, k));
                        }
                    };
                    assert(record_keys(rec2) =~= record_keys(rec).push(k));
                    assert(keys_distinct(rec2)) by {
                        assert(forall|a: int, b: int|
                            0 <= a < b < rec2.len() && b < rec.len() ==> rec2[a].0 != rec2[b].0);
                        assert(forall|a: int| 0 <= a < rec.len() ==> rec2[a].0 == rec[a].0);
                        assert(forall|a: int|
                            0 <= a < rec.len() ==> record_keys(rec).contains(record_keys(rec)[a]));
                    };
                    lemma_build_keys_from(formats, i + 1, rec2, c, refs2);
                    let x = spec_dedup_from(formats, i + 1, record_keys(rec).push(k));
                    assert(spec_dedup_from(formats, i, record_keys(rec)) == seq![k] + x);
                    assert(record_keys(rec) + (seq![k] + x) =~= (record_keys(rec).push(k)) + x);
                }
            },
            Result::Err(_) => {
            },
        }
    }
}

/// For every format list whose codes all succeed on a commit, the record's
/// keys are exactly the distinct requested codes, each at the position of
/// its first occurrence in the request order.
pub proof fn lemma_record_keys_dedup(
    formats: Seq<Seq<char>>,
    c: CommitInfo,
    refs: Map<Seq<u8>, Seq<Seq<char>>>,
)
    ensures
        ({
            let (res, r2) = spec_build(formats, c, refs);
            res matches Result::Ok(rec) ==> record_keys(rec) == spec_dedup(formats)
        }),
{
    let empty = Seq::<(Seq<char>, JsonVal)>::empty();
    lemma_build_keys_from(formats, 0, empty, c, refs);
    assert(record_keys(empty) =~= Seq::<Seq<char>>::empty());
    let (res, r2) = spec_build(formats, c, refs);
    if res is Ok {
        assert(record_keys(empty) + spec_dedup_from(formats, 0, record_keys(empty)) =~= spec_dedup(
            formats,
        ));
    }
}

/// A code is among the deduplicated keys exactly when it is among the
/// requested codes: the key set equals the set of distinct requested codes.
pub proof fn lemma_dedup_membership(s: Seq<Seq<char>>, k: Seq<char>)
    ensures
        spec_dedup(s).contains(k) <==> s.contains(k),
{
    lemma_dedup_from_membership(s, 0, Seq::empty(), k);
}

proof fn lemma_dedup_from_membership(s: Seq<Seq<char>>, i: int, seen: Seq<Seq<char>>, k: Seq<char>)
    requires
        0 <= i <= s.len(),
    ensures
        spec_dedup_from(s, i, seen).contains(k) <==> (!seen.contains(k) && exists|j: int|
            i <= j < s.len() && s[j] == k),
    decreases s.len() - i,
{
    if i >= s.len() {
    } else if seen.contains(s[i]) {
        lemma_dedup_from_membership(s, i + 1, seen, k);
        if !seen.contains(k) && exists|j: int| i <= j < s.len() && s[j] == k {
            let j = choose|j: int| i <= j < s.len() && s[j] == k;
            assert(j != i);
            assert(s[j] == k);
        }
    } else {
        lemma_dedup_from_membership(s, i + 1, seen.push(s[i]), k);
        let d = spec_dedup_from(s, i + 1, seen.push(s[i]));
        assert(spec_dedup_from(s, i, seen) == seq![s[i]] + d);
        if k == s[i] {
            assert((seq![s[i]] + d)[0] == k);
            assert(spec_dedup_from(s, i, seen).contains(k));
        } else {
            assert(seen.push(s[i]).contains(k) == seen.contains(k)) by {
                if seen.push(s[i]).contains(k) {
                    let w = choose|t: int|
                        0 <= t < seen.push(s[i]).len() && seen.push(s[i])[t] == k;
                    assert(w < seen.len());
                    assert(seen[w] == k);
                }
                if seen.contains(k) {
                    let w = choose|t: int| 0 <= t < seen.len() && seen[t] == k;
                    assert(seen.push(s[i])[w] == k);
                }
            };
            assert(spec_dedup_from(s, i, seen).contains(k) == d.contains(k)) by {
                if d.contains(k) {
                    let w = choose|t: int| 0 <= t < d.len() && d[t] == k;
                    assert((seq![s[i]] + d)[w + 1] == k);
                }
                if (seq![s[i]] + d).contains(k) {
                    let w = choose|t: int|
                        0 <= t < (seq![s[i]] + d).len() && (seq![s[i]] + d)[t] == k;
                    assert(w != 0);
                    assert(d[w - 1] == k);
                }
            };
            if !seen.contains(k) && exists|j: int| i <= j < s.len() && s[j] == k {
                let j = choose|j: int| i <= j < s.len() && s[j] == k;
                assert(j != i);
            }
        }
    }
}

} // verus!
