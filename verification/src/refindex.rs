//! The reference index: which short reference names point at which commit.
//!
//! Built once before the walk, only when the `D` code is requested: one
//! entry per reference, in enumeration order. Viewed as a map from commit
//! identifier to the list of short names pointing at it, in that order.
//! Entries are consumed as each commit is read, which is safe because the
//! walk never yields the same commit twice.

use vstd::prelude::*;
use crate::strutil::bytes_eq;

verus! {

/// The index: one `(commit identifier, short name)` pair per reference, in
/// enumeration order.
pub struct RefIndex {
    entries: Vec<(Vec<u8>, String)>,
}

/// The views of the entry pairs.
pub open spec fn entry_views(s: Seq<(Vec<u8>, String)>) -> Seq<(Seq<u8>, Seq<char>)> {
    s.map_values(|e: (Vec<u8>, String)| (e.0@, e.1@))
}

/// The map each entry list denotes: every pair appends its name to its
/// commit's list.
pub open spec fn as_ref_map(v: Seq<(Seq<u8>, Seq<char>)>) -> Map<Seq<u8>, Seq<Seq<char>>>
    decreases v.len(),
{
    if v.len() == 0 {
        Map::empty()
    } else {
        let m = as_ref_map(v.drop_last());
        let e = v.last();
        m.insert(
            e.0,
            (if m.contains_key(e.0) {
                m[e.0]
            } else {
                Seq::empty()
            }).push(e.1),
        )
    }
}

/// The entry list without the pairs keyed by `k`.
spec fn filter_out(v: Seq<(Seq<u8>, Seq<char>)>, k: Seq<u8>) -> Seq<(Seq<u8>, Seq<char>)>
    decreases v.len(),
{
    if v.len() == 0 {
        Seq::empty()
    } else if v.last().0 == k {
        filter_out(v.drop_last(), k)
    } else {
        filter_out(v.drop_last(), k).push(v.last())
    }
}

/// The names keyed by `k`, in entry order.
spec fn names_of(v: Seq<(Seq<u8>, Seq<char>)>, k: Seq<u8>) -> Seq<Seq<char>>
    decreases v.len(),
{
    if v.len() == 0 {
        Seq::empty()
    } else if v.last().0 == k {
        names_of(v.drop_last(), k).push(v.last().1)
    } else {
        names_of(v.drop_last(), k)
    }
}

/// Dropping every pair keyed by `k` removes exactly `k` from the map, and
/// the names those pairs carried are exactly the map's list at `k`.
proof fn lemma_filter_out(v: Seq<(Seq<u8>, Seq<char>)>, k: Seq<u8>)
    ensures
        as_ref_map(filter_out(v, k)) == as_ref_map(v).remove(k),
        names_of(v, k) == if as_ref_map(v).contains_key(k) {
            as_ref_map(v)[k]
        } else {
            Seq::<Seq<char>>::empty()
        },
    decreases v.len(),
{
    if v.len() == 0 {
        assert(as_ref_map(filter_out(v, k)) =~= as_ref_map(v).remove(k));
    } else {
        let u = v.drop_last();
        let e = v.last();
        lemma_filter_out(u, k);
        let m = as_ref_map(u);
        if e.0 == k {
            assert(as_ref_map(v).remove(k) =~= m.remove(k));
        } else {
            assert(filter_out(v, k) == filter_out(u, k).push(e));
            assert(filter_out(u, k).push(e).drop_last() =~= filter_out(u, k));
            assert(filter_out(u, k).push(e).last() == e);
            assert(m.remove(k).contains_key(e.0) == m.contains_key(e.0));
            assert(as_ref_map(filter_out(v, k)) =~= as_ref_map(v).remove(k));
        }
    }
}

impl View for RefIndex {
    type V = Map<Seq<u8>, Seq<Seq<char>>>;

    closed spec fn view(&self) -> Map<Seq<u8>, Seq<Seq<char>>> {
        as_ref_map(entry_views(self.entries@))
    }
}

impl RefIndex {
    /// An empty index: no commit has reference names.
    pub fn new() -> (r: Self)
        ensures
            r@ == Map::<Seq<u8>, Seq<Seq<char>>>::empty(),
    {
        let r = RefIndex { entries: Vec::new() };
        proof {
            assert(entry_views(r.entries@) =~= Seq::empty());
            assert(r@ =~= Map::<Seq<u8>, Seq<Seq<char>>>::empty());
        }
        r
    }

    /// Appends one reference: `name` joins the end of `id`'s list.
    pub fn insert(&mut self, id: Vec<u8>, name: String)
        ensures
            final(self)@ == old(self)@.insert(
                id@,
                (if old(self)@.contains_key(id@) {
                    old(self)@[id@]
                } else {
                    Seq::<Seq<char>>::empty()
                }).push(name@),
            ),
    {
        let ghost old_entries = self.entries@;
        let ghost idv = id@;
        let ghost namev = name@;
        self.entries.push((id, name));
        proof {
            let v = entry_views(self.entries@);
            assert(v =~= entry_views(old_entries).push((idv, namev)));
            assert(v.drop_last() =~= entry_views(old_entries));
            assert(v.last() == (idv, namev));
        }
    }

    /// Takes `id`'s list out of the index: returns the short names pointing
    /// at `id`, in enumeration order (empty if there are none), and removes
    /// the commit's entry, so a later read of the same identifier yields
    /// nothing.
    pub fn remove(&mut self, id: &Vec<u8>) -> (names: Vec<String>)
        ensures
            final(self)@ == old(self)@.remove(id@),
            names.deep_view() == if old(self)@.contains_key(id@) {
                old(self)@[id@]
            } else {
                Seq::<Seq<char>>::empty()
            },
    {
        let ghost s = self.entries@;
        let mut kept: Vec<(Vec<u8>, String)> = Vec::new();
        let mut names: Vec<String> = Vec::new();
        let mut i: usize = 0;
        while i < self.entries.len()
            invariant
                i <= self.entries.len(),
                self.entries@ == s,
                entry_views(kept@) == filter_out(entry_views(s.take(i as int)), id@),
                names.deep_view() == names_of(entry_views(s.take(i as int)), id@),
            decreases self.entries.len() - i,
        {
            let e = &self.entries[i];
            proof {
                assert(entry_views(s.take(i + 1 as int)) =~= entry_views(s.take(i as int)).push(
                    (s[i as int].0@, s[i as int].1@),
                ));
                assert(entry_views(s.take(i as int)).push((s[i as int].0@, s[i as int].1@))
                    .drop_last() =~= entry_views(s.take(i as int)));
            }
            if bytes_eq(&e.0, id) {
                let ghost old_names = names.deep_view();
                names.push(e.1.clone());
                proof {
                    assert(names.deep_view() =~= old_names.push(s[i as int].1@));
                }
            } else {
                let ghost old_kept = entry_views(kept@);
                kept.push((crate::strutil::copy_bytes(&e.0), e.1.clone()));
                proof {
                    assert(entry_views(kept@) =~= old_kept.push((s[i as int].0@, s[i as int].1@)));
                }
            }
            i = i + 1;
        }
        proof {
            assert(s.take(s.len() as int) =~= s);
            lemma_filter_out(entry_views(s), id@);
        }
        self.entries = kept;
        names
    }
}

} // verus!
