//! Lists of Unity versions: sorting, selecting by a version prefix, and the
//! non-empty sorted list of installed editor versions.

use crate::nonempty::{NonEmptyVec, NonEmptyVecErr};
use crate::text::{chars_of, starts_with, starts_with_seq};
use crate::version::{version_chars, version_le, version_lt, UnityVersion};
use vstd::prelude::*;
use vstd::relations::{sorted_by, total_ordering};

verus! {

// ---------------------------------------------------------------------------
// Specification
// ---------------------------------------------------------------------------

/// The order of versions as a relation: `a` comes before `b` or is `b`.
pub open spec fn version_order() -> spec_fn(UnityVersion, UnityVersion) -> bool {
    |a: UnityVersion, b: UnityVersion| version_le(a, b)
}

/// The versions of `s`, sorted from the oldest to the newest.
pub open spec fn sorted_versions(s: Seq<UnityVersion>) -> Seq<UnityVersion> {
    s.sort_by(version_order())
}

/// The string form of `v` starts with `prefix`.
pub open spec fn version_has_prefix(v: UnityVersion, prefix: Seq<char>) -> bool {
    starts_with_seq(version_chars(v), prefix)
}

/// The predicate that selects the versions whose string form starts with
/// `prefix`.
pub open spec fn prefix_pred(prefix: Seq<char>) -> spec_fn(UnityVersion) -> bool {
    |v: UnityVersion| version_has_prefix(v, prefix)
}

/// The versions of `s` whose string form starts with `prefix`, in order.
pub open spec fn with_prefix(s: Seq<UnityVersion>, prefix: Seq<char>) -> Seq<UnityVersion> {
    s.filter(prefix_pred(prefix))
}

/// The last version of `s` whose string form starts with `prefix`, if any.
pub open spec fn last_with_prefix(s: Seq<UnityVersion>, prefix: Seq<char>) -> Option<
    UnityVersion,
> {
    let f = with_prefix(s, prefix);
    if f.len() == 0 {
        None
    } else {
        Some(f.last())
    }
}

/// `version_le` is a total order.
pub proof fn lemma_version_order_total()
    ensures
        total_ordering(version_order()),
{
}

/// Filtering keeps a sorted sequence sorted.
pub proof fn lemma_filter_sorted(s: Seq<UnityVersion>, p: spec_fn(UnityVersion) -> bool)
    requires
        sorted_by(s, version_order()),
    ensures
        sorted_by(s.filter(p), version_order()),
    decreases s.len(),
{
    reveal(Seq::filter);
    if s.len() > 0 {
        let d = s.drop_last();
        assert(sorted_by(d, version_order()));
        lemma_filter_sorted(d, p);
        if p(s.last()) {
            let f = d.filter(p);
            assert forall|i: int| 0 <= i < f.len() implies version_le(f[i], s.last()) by {
                d.lemma_filter_contains_rev(p, f[i]);
                let j = choose|j: int| 0 <= j < d.len() && d[j] == f[i];
                assert(version_order()(s[j], s[s.len() - 1]));
            }
            let g = f.push(s.last());
            assert forall|i: int, j: int| 0 <= i < j < g.len() implies #[trigger] version_order()(
                g[i],
                g[j],
            ) by {
                if j == g.len() - 1 {
                    assert(version_le(f[i], s.last()));
                } else {
                    assert(version_order()(f[i], f[j]));
                }
            }
        }
    }
}

// ---------------------------------------------------------------------------
// Sorting
// ---------------------------------------------------------------------------

/// Inserts `x` into the sorted vector `v` after every version that is not
/// newer than `x`.
fn insert_sorted(v: &mut Vec<UnityVersion>, x: UnityVersion)
    requires
        sorted_by(old(v)@, version_order()),
    ensures
        sorted_by(final(v)@, version_order()),
        final(v)@.to_multiset() == old(v)@.to_multiset().insert(x),
{
    let n = v.len();
    let mut k: usize = 0;
    while k < n && !x.is_older_than(&v[k])
        invariant
            n == v.len(),
            k <= n,
            forall|j: int| 0 <= j < k ==> version_le(#[trigger] v@[j], x),
        decreases n - k,
    {
        k = k + 1;
    }
    let ghost s = v@;
    proof {
        assert forall|j: int| k <= j < n implies version_lt(x, #[trigger] s[j]) by {
            assert(version_order()(s[k as int], s[j]));
        }
    }
    v.insert(k, x);
    proof {
        broadcast use vstd::seq_lib::group_to_multiset_ensures;

        let t = v@;
        assert(t == s.insert(k as int, x));
        assert forall|i: int, j: int| 0 <= i < j < t.len() implies #[trigger] version_order()(
            t[i],
            t[j],
        ) by {
            if j < k {
                assert(version_order()(s[i], s[j]));
            } else if j == k {
                assert(version_le(s[i], x));
            } else if i < k {
                assert(version_le(s[i], x));
                assert(version_lt(x, s[j - 1]));
            } else if i == k {
                assert(version_lt(x, s[j - 1]));
            } else {
                assert(version_order()(s[i - 1], s[j - 1]));
            }
        }
    }
}

/// Returns the versions sorted from the oldest to the newest.
pub fn sort_versions(v: Vec<UnityVersion>) -> (r: Vec<UnityVersion>)
    ensures
        r@ == sorted_versions(v@),
{
    let mut out: Vec<UnityVersion> = Vec::new();
    let n = v.len();
    let mut i: usize = 0;
    proof {
        broadcast use vstd::seq_lib::group_to_multiset_ensures;

        assert(v@.subrange(0, 0) =~= out@);
    }
    while i < n
        invariant
            n == v.len(),
            i <= n,
            sorted_by(out@, version_order()),
            out@.to_multiset() == v@.subrange(0, i as int).to_multiset(),
        decreases n - i,
    {
        insert_sorted(&mut out, v[i]);
        proof {
            broadcast use vstd::seq_lib::group_to_multiset_ensures;

            assert(v@.subrange(0, i + 1) == v@.subrange(0, i as int).push(v@[i as int]));
        }
        i = i + 1;
    }
    proof {
        assert(v@.subrange(0, n as int) == v@);
        lemma_version_order_total();
        v@.lemma_sort_by_ensures(version_order());
        vstd::seq_lib::lemma_sorted_unique(out@, sorted_versions(v@), version_order());
    }
    out
}

// ---------------------------------------------------------------------------
// Selecting by prefix
// ---------------------------------------------------------------------------

/// The string form of `v` starts with `prefix`.
pub fn has_prefix(v: UnityVersion, prefix: &[char]) -> (b: bool)
    ensures
        b == version_has_prefix(v, prefix@),
{
    let s = v.to_string();
    let cs = chars_of(s.as_str());
    starts_with(cs.as_slice(), prefix)
}

/// The versions of `s` whose string form starts with `prefix`, in order.
pub fn filter_prefix(s: &[UnityVersion], prefix: &[char]) -> (r: Vec<UnityVersion>)
    ensures
        r@ == with_prefix(s@, prefix@),
{
    let mut out: Vec<UnityVersion> = Vec::new();
    let n = s.len();
    let mut i: usize = 0;
    while i < n
        invariant
            n == s@.len(),
            i <= n,
            out@ == s@.subrange(0, i as int).filter(prefix_pred(prefix@)),
        decreases n - i,
    {
        proof {
            assert(s@.subrange(0, i + 1) == s@.subrange(0, i as int).push(s@[i as int]));
            s@.subrange(0, i as int).lemma_filter_push(s@[i as int], prefix_pred(prefix@));
        }
        if has_prefix(s[i], prefix) {
            out.push(s[i]);
        }
        i = i + 1;
    }
    proof {
        assert(s@.subrange(0, n as int) == s@);
    }
    out
}

/// Why a list of versions could not be made or selected from.
#[derive(Debug, PartialEq, Eq)]
pub enum VersionListError {
    /// No versions were given.
    NoVersions,
    /// No version starts with the given prefix.
    NoMatch(String),
}

/// `e` reports that no version starts with `p`.
pub open spec fn is_no_match(e: VersionListError, p: Seq<char>) -> bool {
    match e {
        VersionListError::NoMatch(q) => q@ == p,
        _ => false,
    }
}

/// Returns the versions whose string form starts with the given partial
/// version, or all of them when none is given. It is an error when no
/// version matches.
pub fn matching_versions(versions: Vec<UnityVersion>, partial_version: Option<&str>) -> (r: Result<
    Vec<UnityVersion>,
    VersionListError,
>)
    ensures
        match partial_version {
            None => r == Ok::<Vec<UnityVersion>, VersionListError>(versions),
            Some(p) => match r {
                Ok(out) => out@ == with_prefix(versions@, p@) && out@.len() > 0,
                Err(e) => with_prefix(versions@, p@).len() == 0 && is_no_match(e, p@),
            },
        },
{
    match partial_version {
        None => Ok(versions),
        Some(p) => {
            let pc = chars_of(p);
            let out = filter_prefix(versions.as_slice(), pc.as_slice());
            if out.len() == 0 {
                Err(VersionListError::NoMatch(p.to_string()))
            } else {
                Ok(out)
            }
        },
    }
}

// ---------------------------------------------------------------------------
// The sorted list of versions
// ---------------------------------------------------------------------------

/// A non-empty list of Unity versions, sorted from the oldest to the newest.
pub struct VersionList {
    versions: NonEmptyVec<UnityVersion>,
}

impl View for VersionList {
    type V = Seq<UnityVersion>;

    closed spec fn view(&self) -> Seq<UnityVersion> {
        self.versions@
    }
}

impl VersionList {
    /// The list holds at least one version and is sorted.
    pub open spec fn wf(&self) -> bool {
        &&& self@.len() >= 1
        &&& sorted_by(self@, version_order())
    }

    /// Sorts the versions into a list; an empty vector is refused.
    pub fn from_vec(versions: Vec<UnityVersion>) -> (r: Result<Self, NonEmptyVecErr>)
        ensures
            versions@.len() == 0 <==> r is Err,
            r matches Err(e) ==> e == NonEmptyVecErr::VecIsEmpty,
            r matches Ok(l) ==> l.wf() && l@ == sorted_versions(versions@),
    {
        let ghost input = versions@;
        let sorted = sort_versions(versions);
        proof {
            lemma_version_order_total();
            input.lemma_sort_by_ensures(version_order());
            vstd::seq_lib::to_multiset_len(input);
            vstd::seq_lib::to_multiset_len(sorted@);
            assert(sorted@.len() == input.len());
        }
        match NonEmptyVec::from_vec(sorted) {
            Ok(versions) => Ok(Self { versions }),
            Err(_) => Err(NonEmptyVecErr::VecIsEmpty),
        }
    }

    /// Sorts the versions into a list; an empty vector is refused.
    pub fn try_from(versions: Vec<UnityVersion>) -> (r: Result<Self, NonEmptyVecErr>)
        ensures
            versions@.len() == 0 <==> r is Err,
            r matches Err(e) ==> e == NonEmptyVecErr::VecIsEmpty,
            r matches Ok(l) ==> l.wf() && l@ == sorted_versions(versions@),
    {
        Self::from_vec(versions)
    }

    /// Returns the versions, oldest first.
    pub fn into_vec(self) -> (r: Vec<UnityVersion>)
        ensures
            r@ == self@,
    {
        self.versions.into_vec()
    }

    /// Returns the versions, oldest first.
    pub fn as_slice(&self) -> (r: &[UnityVersion])
        ensures
            r@ == self@,
    {
        self.versions.as_slice()
    }

    /// Returns the oldest version.
    pub fn first(&self) -> (r: &UnityVersion)
        requires
            self.wf(),
        ensures
            *r == self@[0],
    {
        self.versions.first()
    }

    /// Returns the newest version.
    pub fn last(&self) -> (r: &UnityVersion)
        requires
            self.wf(),
        ensures
            *r == self@.last(),
    {
        self.versions.last()
    }

    /// Returns the list with only the versions that match the partial
    /// version, or an error if no version matches. Without a partial version
    /// the list is returned unchanged.
    pub fn prune(self, partial_version: Option<&str>) -> (r: Result<Self, VersionListError>)
        requires
            self.wf(),
        ensures
            match partial_version {
                None => r == Ok::<Self, VersionListError>(self),
                Some(p) => match r {
                    Ok(l) => l@ == with_prefix(self@, p@),
                    Err(e) => with_prefix(self@, p@).len() == 0 && is_no_match(e, p@),
                },
            },
            r matches Ok(l) ==> l.wf(),
    {
        match partial_version {
            None => Ok(self),
            Some(p) => {
                let pc = chars_of(p);
                let out = filter_prefix(self.versions.as_slice(), pc.as_slice());
                proof {
                    lemma_filter_sorted(self@, prefix_pred(p@));
                }
                match NonEmptyVec::from_vec(out) {
                    Ok(versions) => Ok(Self { versions }),
                    Err(_) => Err(VersionListError::NoMatch(p.to_string())),
                }
            },
        }
    }

    /// Returns the list with only the versions that start with the given
    /// prefix, or an error if no version does. Without a prefix the list is
    /// returned unchanged.
    pub fn filter_by_prefix(self, version_prefix: Option<&str>) -> (r: Result<
        Self,
        VersionListError,
    >)
        requires
            self.wf(),
        ensures
            match version_prefix {
                None => r == Ok::<Self, VersionListError>(self),
                Some(p) => match r {
                    Ok(l) => l@ == with_prefix(self@, p@),
                    Err(e) => with_prefix(self@, p@).len() == 0 && is_no_match(e, p@),
                },
            },
            r matches Ok(l) ==> l.wf(),
    {
        self.prune(version_prefix)
    }

    /// Returns the default version for new projects: the newest version that
    /// starts with the preferred prefix, or the newest version when there is
    /// no preference or no version matches it.
    pub fn default_version(&self, preferred: Option<&str>) -> (r: UnityVersion)
        requires
            self.wf(),
        ensures
            r == match preferred {
                None => self@.last(),
                Some(p) => match last_with_prefix(self@, p@) {
                    Some(v) => v,
                    None => self@.last(),
                },
            },
    {
        match preferred {
            None => *self.last(),
            Some(p) => {
                let pc = chars_of(p);
                let found = filter_prefix(self.versions.as_slice(), pc.as_slice());
                if found.len() == 0 {
                    *self.last()
                } else {
                    found[found.len() - 1]
                }
            },
        }
    }

    /// Returns the newest of the given versions that matches the partial
    /// version; an error when there are no versions or none matches.
    pub fn latest(versions: Vec<UnityVersion>, partial_version: Option<&str>) -> (r: Result<
        UnityVersion,
        VersionListError,
    >)
        ensures
            versions@.len() == 0 ==> r == Err::<UnityVersion, VersionListError>(
                VersionListError::NoVersions,
            ),
            versions@.len() > 0 ==> match partial_version {
                None => r == Ok::<UnityVersion, VersionListError>(
                    sorted_versions(versions@).last(),
                ),
                Some(p) => match last_with_prefix(sorted_versions(versions@), p@) {
                    Some(v) => r == Ok::<UnityVersion, VersionListError>(v),
                    None => r matches Err(e) && is_no_match(e, p@),
                },
            },
    {
        let list = match Self::from_vec(versions) {
            Ok(l) => l,
            Err(_) => return Err(VersionListError::NoVersions),
        };
        match list.prune(partial_version) {
            Ok(l) => Ok(*l.last()),
            Err(e) => Err(e),
        }
    }
}

/// Returns the newest of the available versions that matches the partial
/// version; an error when there are no versions or none matches.
pub fn matching_available_version(available: Vec<UnityVersion>, partial_version: Option<&str>) -> (r:
    Result<UnityVersion, VersionListError>)
    ensures
        available@.len() == 0 ==> r == Err::<UnityVersion, VersionListError>(
            VersionListError::NoVersions,
        ),
        available@.len() > 0 ==> match partial_version {
            None => r == Ok::<UnityVersion, VersionListError>(sorted_versions(available@).last()),
            Some(p) => match last_with_prefix(sorted_versions(available@), p@) {
                Some(v) => r == Ok::<UnityVersion, VersionListError>(v),
                None => r matches Err(e) && is_no_match(e, p@),
            },
        },
{
    VersionList::latest(available, partial_version)
}

// ---------------------------------------------------------------------------
// Laws
// ---------------------------------------------------------------------------

/// Sorting keeps every version, as many times as it occurs, and orders them
/// from the oldest to the newest; sorting a sorted list changes nothing.
pub proof fn law_sorted_versions(s: Seq<UnityVersion>)
    ensures
        sorted_versions(s).to_multiset() == s.to_multiset(),
        sorted_by(sorted_versions(s), version_order()),
        sorted_by(s, version_order()) ==> sorted_versions(s) == s,
{
    lemma_version_order_total();
    s.lemma_sort_by_ensures(version_order());
    if sorted_by(s, version_order()) {
        vstd::seq_lib::lemma_sorted_unique(s, sorted_versions(s), version_order());
    }
}

/// Selecting by prefix keeps exactly the versions whose string form starts
/// with the prefix, in their order, and keeps a sorted list sorted.
pub proof fn law_prefix_selection(s: Seq<UnityVersion>, prefix: Seq<char>)
    ensures
        forall|i: int|
            0 <= i < with_prefix(s, prefix).len() ==> version_has_prefix(
                #[trigger] with_prefix(s, prefix)[i],
                prefix,
            ) && s.contains(with_prefix(s, prefix)[i]),
        forall|i: int|
            0 <= i < s.len() && version_has_prefix(#[trigger] s[i], prefix) ==> with_prefix(
                s,
                prefix,
            ).contains(s[i]),
        with_prefix(s, prefix).len() <= s.len(),
        sorted_by(s, version_order()) ==> sorted_by(with_prefix(s, prefix), version_order()),
{
    broadcast use vstd::seq_lib::group_filter_ensures;

    let f = with_prefix(s, prefix);
    assert forall|i: int| 0 <= i < f.len() implies version_has_prefix(#[trigger] f[i], prefix)
        && s.contains(f[i]) by {
        s.lemma_filter_pred(prefix_pred(prefix), i);
        s.lemma_filter_contains_rev(prefix_pred(prefix), f[i]);
    }
    assert forall|i: int| 0 <= i < s.len() && version_has_prefix(#[trigger] s[i], prefix) implies f.contains(
        s[i],
    ) by {
        s.lemma_filter_contains(prefix_pred(prefix), i);
    }
    s.lemma_filter_len(prefix_pred(prefix));
    if sorted_by(s, version_order()) {
        lemma_filter_sorted(s, prefix_pred(prefix));
    }
}

} // verus!
