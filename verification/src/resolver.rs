//! The path resolver model.  Canonicalizing a path is a filesystem
//! question, so the answer cannot be computed here; instead the caller
//! checks and canonicalizes every path a project mentions and records the
//! results in a [`Resolver`].  The compile functions then resolve paths by
//! pure, verified lookup: a path resolves exactly when the caller found it
//! to exist, and always to the same canonical string.

use vstd::prelude::*;
use crate::text::str_eq;

verus! {

/// A finite view of the filesystem: each entry maps a path as written to
/// its canonical absolute form.
#[derive(Debug)]
pub struct Resolver {
    entries: Vec<(String, String)>,
}

spec fn entries_map(entries: Seq<(String, String)>) -> Map<Seq<char>, Seq<char>>
    decreases entries.len(),
{
    if entries.len() == 0 {
        Map::empty()
    } else {
        entries_map(entries.drop_last()).insert(entries.last().0@, entries.last().1@)
    }
}

impl View for Resolver {
    type V = Map<Seq<char>, Seq<char>>;

    closed spec fn view(&self) -> Map<Seq<char>, Seq<char>> {
        entries_map(self.entries@)
    }
}

/// What resolving `path` against the known paths `m` yields: the
/// canonical form when the path is known, nothing otherwise.
pub open spec fn spec_resolve(m: Map<Seq<char>, Seq<char>>, path: Seq<char>) -> Option<Seq<char>> {
    if m.contains_key(path) {
        Some(m[path])
    } else {
        None
    }
}

/// True when every path of `paths` is known to `m`.
pub open spec fn all_resolve(m: Map<Seq<char>, Seq<char>>, paths: Seq<Seq<char>>) -> bool {
    forall|i: int| 0 <= i < paths.len() ==> m.contains_key(#[trigger] paths[i])
}

/// The canonical forms of `paths`, in order; meaningful when they all
/// resolve.
pub open spec fn resolve_all(m: Map<Seq<char>, Seq<char>>, paths: Seq<Seq<char>>) -> Seq<
    Seq<char>,
> {
    paths.map_values(|p: Seq<char>| m[p])
}

/// The first path of `paths` that `m` does not know.
pub open spec fn first_unresolved(m: Map<Seq<char>, Seq<char>>, paths: Seq<Seq<char>>) -> Seq<
    char,
>
    decreases paths.len(),
{
    if paths.len() == 0 {
        Seq::empty()
    } else if !m.contains_key(paths[0]) {
        paths[0]
    } else {
        first_unresolved(m, paths.drop_first())
    }
}

/// If every path before index `i` resolves and `paths[i]` does not, then
/// `paths[i]` is the first unresolved path.
pub proof fn lemma_first_unresolved_at(
    m: Map<Seq<char>, Seq<char>>,
    paths: Seq<Seq<char>>,
    i: int,
)
    requires
        0 <= i < paths.len(),
        forall|j: int| 0 <= j < i ==> m.contains_key(#[trigger] paths[j]),
        !m.contains_key(paths[i]),
    ensures
        first_unresolved(m, paths) == paths[i],
    decreases i,
{
    if i > 0 {
        lemma_first_unresolved_at(m, paths.drop_first(), i - 1);
    }
}

impl Resolver {
    /// A resolver that knows no paths.
    pub fn new() -> (r: Self)
        ensures
            r@ == Map::<Seq<char>, Seq<char>>::empty(),
    {
        let r = Resolver { entries: Vec::new() };
        proof {
            assert(r@ =~= Map::<Seq<char>, Seq<char>>::empty());
        }
        r
    }

    /// Records that `path` exists and canonicalizes to `canonical`.
    pub fn insert(&mut self, path: &str, canonical: &str)
        ensures
            final(self)@ == old(self)@.insert(path@, canonical@),
    {
        self.entries.push((path.to_owned(), canonical.to_owned()));
        proof {
            assert(self.entries@.drop_last() =~= old(self).entries@);
        }
    }

    /// Resolves one path by lookup: succeeds with the canonical form
    /// exactly when the path is known, and fails otherwise — it never
    /// panics, whatever the path.
    pub fn resolve(&self, path: &str) -> (r: Option<String>)
        ensures
            r is Some <==> self@.contains_key(path@),
            r matches Some(c) ==> c@ == self@[path@],
    {
        let mut i: usize = self.entries.len();
        proof {
            assert(self.entries@.take(self.entries@.len() as int) =~= self.entries@);
        }
        while i > 0
            invariant
                i <= self.entries@.len(),
                spec_resolve(self@, path@) == spec_resolve(
                    entries_map(self.entries@.take(i as int)),
                    path@,
                ),
                self@ == entries_map(self.entries@),
            decreases i,
        {
            i = i - 1;
            proof {
                assert(self.entries@.take(i + 1).drop_last() =~= self.entries@.take(i as int));
                assert(self.entries@.take(i + 1).last() == self.entries@[i as int]);
            }
            if str_eq(self.entries[i].0.as_str(), path) {
                return Some(self.entries[i].1.clone());
            }
        }
        proof {
            assert(self.entries@.take(0) =~= Seq::<(String, String)>::empty());
        }
        None
    }

    /// Resolves every path of `paths`, in order.  Succeeds with the
    /// canonical forms exactly when all resolve; otherwise fails with the
    /// first path that does not.
    pub fn resolve_list(&self, paths: &Vec<String>) -> (r: Result<Vec<String>, String>)
        ensures
            r is Ok <==> all_resolve(self@, paths.deep_view()),
            r matches Ok(v) ==> v.deep_view() == resolve_all(self@, paths.deep_view()),
            r matches Err(p) ==> p@ == first_unresolved(self@, paths.deep_view()),
    {
        let mut out: Vec<String> = Vec::new();
        let mut i: usize = 0;
        while i < paths.len()
            invariant
                i <= paths.len(),
                forall|j: int| 0 <= j < i ==> self@.contains_key(#[trigger] paths.deep_view()[j]),
                out.deep_view() == resolve_all(self@, paths.deep_view().take(i as int)),
            decreases paths.len() - i,
        {
            match self.resolve(paths[i].as_str()) {
                Some(c) => {
                    out.push(c);
                    proof {
                        let pv = paths.deep_view();
                        assert(out.deep_view() =~= resolve_all(self@, pv.take(i as int)).push(
                            self@[pv[i as int]],
                        ));
                        assert(resolve_all(self@, pv.take(i + 1)) =~= resolve_all(
                            self@,
                            pv.take(i as int),
                        ).push(self@[pv[i as int]]));
                    }
                },
                None => {
                    proof {
                        lemma_first_unresolved_at(self@, paths.deep_view(), i as int);
                    }
                    return Err(paths[i].clone());
                },
            }
            i = i + 1;
        }
        proof {
            assert(paths.deep_view().take(paths@.len() as int) =~= paths.deep_view());
        }
        Ok(out)
    }
}

/// Resolution is idempotent: two resolutions of the same path against the
/// same resolver contents always agree — the outcome is a function of the
/// contents alone.
pub proof fn lemma_resolution_idempotent(
    m: Map<Seq<char>, Seq<char>>,
    path: Seq<char>,
    r1: Option<Seq<char>>,
    r2: Option<Seq<char>>,
)
    requires
        r1 == spec_resolve(m, path),
        r2 == spec_resolve(m, path),
    ensures
        r1 == r2,
        !m.contains_key(path) ==> r1 is None,
{
}

} // verus!
