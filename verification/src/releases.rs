//! Unity releases: the release data the Unity release service reports, the
//! collection the tool keeps of it, and the rules that select releases from
//! it.

use crate::text::{chars_of, push_str};
use crate::versions::has_prefix;
use crate::version::{version_chars, version_le, version_lt, BuildType, UnityVersion};
use crate::versions::{lemma_version_order_total, version_has_prefix, version_order};
use vstd::prelude::*;
use vstd::multiset::Multiset;
use vstd::relations::sorted_by;

verus! {

// ---------------------------------------------------------------------------
// Release streams and release notes
// ---------------------------------------------------------------------------

/// The release stream of a Unity release.
#[derive(Debug, PartialEq, Eq, Structural, PartialOrd, Ord, Clone, Copy)]
pub enum ReleaseStream {
    Lts,
    Tech,
    Beta,
    Alpha,
    Supp,
    /// Fallback for unknown values.
    Other,
}

/// The label of a release stream as the tool prints it.
pub open spec fn stream_label(s: ReleaseStream) -> Seq<char> {
    match s {
        ReleaseStream::Lts => "LTS"@,
        ReleaseStream::Tech => "TECH"@,
        ReleaseStream::Beta => "BETA"@,
        ReleaseStream::Alpha => "ALPHA"@,
        ReleaseStream::Supp => "SUPP"@,
        ReleaseStream::Other => "OTHER"@,
    }
}

/// The stream that a name of the release service stands for.
pub open spec fn stream_named(name: Seq<char>) -> ReleaseStream {
    if name == "LTS"@ {
        ReleaseStream::Lts
    } else if name == "TECH"@ {
        ReleaseStream::Tech
    } else if name == "BETA"@ {
        ReleaseStream::Beta
    } else if name == "ALPHA"@ {
        ReleaseStream::Alpha
    } else if name == "SUPPORTED"@ {
        ReleaseStream::Supp
    } else {
        ReleaseStream::Other
    }
}

impl ReleaseStream {
    /// The label of the stream as the tool prints it.
    pub fn as_str(&self) -> (r: &'static str)
        ensures
            r@ == stream_label(*self),
    {
        match self {
            ReleaseStream::Lts => "LTS",
            ReleaseStream::Tech => "TECH",
            ReleaseStream::Beta => "BETA",
            ReleaseStream::Alpha => "ALPHA",
            ReleaseStream::Supp => "SUPP",
            ReleaseStream::Other => "OTHER",
        }
    }

    /// The stream that a name of the release service stands for; unknown
    /// names give `Other`.
    pub fn from_name(name: &str) -> (r: ReleaseStream)
        ensures
            r == stream_named(name@),
    {
        let n = name.to_string();
        if n == "LTS".to_string() {
            ReleaseStream::Lts
        } else if n == "TECH".to_string() {
            ReleaseStream::Tech
        } else if n == "BETA".to_string() {
            ReleaseStream::Beta
        } else if n == "ALPHA".to_string() {
            ReleaseStream::Alpha
        } else if n == "SUPPORTED".to_string() {
            ReleaseStream::Supp
        } else {
            ReleaseStream::Other
        }
    }
}

/// A URL.
pub struct Url(pub String);

impl Url {
    /// The URL as a string.
    pub fn as_ref(&self) -> (r: &str)
        ensures
            r@ == self.0@,
    {
        self.0.as_str()
    }
}

/// The page of the release notes of a version: alpha and beta releases have
/// pages of their own, the others are on the "what's new" pages.
pub open spec fn notes_url_chars(v: UnityVersion) -> Seq<char> {
    let base = match v.build_type {
        BuildType::Alpha => "https://unity.com/releases/editor/alpha/"@,
        BuildType::Beta => "https://unity.com/releases/editor/beta/"@,
        _ => "https://unity.com/releases/editor/whats-new/"@,
    };
    base + version_chars(v) + "#notes"@
}

/// Returns the release notes URL for the given version.
pub fn release_notes_url(version: UnityVersion) -> (r: Url)
    ensures
        r.0@ == notes_url_chars(version),
{
    let mut s = String::new();
    match version.build_type {
        BuildType::Alpha => push_str(&mut s, "https://unity.com/releases/editor/alpha/"),
        BuildType::Beta => push_str(&mut s, "https://unity.com/releases/editor/beta/"),
        _ => push_str(&mut s, "https://unity.com/releases/editor/whats-new/"),
    }
    let v = version.to_string();
    push_str(&mut s, v.as_str());
    push_str(&mut s, "#notes");
    Url(s)
}

// ---------------------------------------------------------------------------
// Release data
// ---------------------------------------------------------------------------

/// Whether release data is downloaded only when the cached copy is old, or
/// always.
#[derive(Debug, Clone, Copy, PartialEq, Eq, Structural)]
pub enum FetchMode {
    /// Fetch only if the cache is expired.
    Auto,
    /// Fetch regardless of the cache.
    Force,
}

/// Where the release notes of a release are.
pub struct ReleaseNotes {
    pub notes_type: String,
    pub url: String,
}

/// A license agreement of a module.
pub struct EulaElement {
    pub label: String,
    pub message: String,
    pub eula_type: String,
    pub url: String,
}

/// A path that is renamed after a module is extracted.
pub struct ExtractedPathRename {
    pub from: String,
    pub to: String,
}

/// A third-party notice of a release.
pub struct ThirdPartyNoticesElement {
    pub original_file_name: String,
    pub notice_type: String,
    pub url: String,
}

/// What the release service reports of one release. The release date is
/// held as seconds since the Unix epoch.
pub struct ReleaseData {
    pub version: UnityVersion,
    pub release_date: i64,
    pub stream: ReleaseStream,
    pub release_notes: ReleaseNotes,
    pub short_revision: String,
    pub sku_family: String,
    pub unity_hub_deep_link: String,
    pub recommended: bool,
}

/// Some release of `s` has version `v`.
pub open spec fn has_release(s: Seq<ReleaseData>, v: UnityVersion) -> bool {
    exists|i: int| 0 <= i < s.len() && (#[trigger] s[i]).version == v
}

/// `i` is the first index of a release of `s` with version `v`.
pub open spec fn is_first_release(s: Seq<ReleaseData>, v: UnityVersion, i: int) -> bool {
    &&& 0 <= i < s.len()
    &&& s[i].version == v
    &&& forall|j: int| 0 <= j < i ==> (#[trigger] s[j]).version != v
}

/// The releases of `s` are sorted by version, oldest first.
pub open spec fn releases_sorted(s: Seq<ReleaseData>) -> bool {
    forall|i: int, j: int| 0 <= i < j < s.len() ==> version_le(#[trigger] s[i].version, #[trigger] s[j].version)
}

/// Returns the index of the first release of `s` with version `v`.
pub fn position_of(s: &[ReleaseData], v: UnityVersion) -> (r: Option<usize>)
    ensures
        match r {
            Some(i) => is_first_release(s@, v, i as int),
            None => !has_release(s@, v),
        },
{
    let n = s.len();
    let mut i: usize = 0;
    while i < n
        invariant
            n == s@.len(),
            i <= n,
            forall|j: int| 0 <= j < i ==> (#[trigger] s@[j]).version != v,
        decreases n - i,
    {
        if s[i].version == v {
            return Some(i);
        }
        i = i + 1;
    }
    None
}

/// The collection of known releases.
pub struct ReleaseCollection {
    /// When the collection was last brought up to date, in seconds since the
    /// Unix epoch.
    pub last_updated: i64,
    /// The version the release service recommends.
    pub suggested_version: Option<UnityVersion>,
    pub releases: Vec<ReleaseData>,
}

impl View for ReleaseCollection {
    type V = Seq<ReleaseData>;

    closed spec fn view(&self) -> Seq<ReleaseData> {
        self.releases@
    }
}

impl ReleaseCollection {
    /// An empty collection, updated at the given time.
    pub fn new(last_updated: i64) -> (r: Self)
        ensures
            r@.len() == 0,
            r.last_updated == last_updated,
            r.suggested_version is None,
    {
        ReleaseCollection { last_updated, suggested_version: None, releases: Vec::new() }
    }

    /// A collection of the given releases.
    pub fn from_releases(
        last_updated: i64,
        suggested_version: Option<UnityVersion>,
        releases: Vec<ReleaseData>,
    ) -> (r: Self)
        ensures
            r@ == releases@,
            r.last_updated == last_updated,
            r.suggested_version == suggested_version,
    {
        ReleaseCollection { last_updated, suggested_version, releases }
    }

    /// Returns if the collection has a release with the given version.
    pub fn has_version(&self, version: UnityVersion) -> (r: bool)
        ensures
            r == has_release(self@, version),
    {
        position_of(self.releases.as_slice(), version).is_some()
    }

    /// Returns the first release with the given version, if any.
    pub fn find_by_version(&self, version: UnityVersion) -> (r: Option<&ReleaseData>)
        ensures
            match r {
                Some(rd) => exists|i: int| is_first_release(self@, version, i) && *rd == self@[i],
                None => !has_release(self@, version),
            },
    {
        match position_of(self.releases.as_slice(), version) {
            Some(i) => {
                assert(is_first_release(self@, version, i as int) && self.releases[i as int]
                    == self@[i as int]);
                Some(&self.releases[i])
            },
            None => None,
        }
    }

    /// Returns the release with the given version, which must be in the
    /// collection.
    pub fn get_by_version(&self, version: UnityVersion) -> (r: &ReleaseData)
        requires
            has_release(self@, version),
        ensures
            exists|i: int| is_first_release(self@, version, i) && *r == self@[i],
    {
        match position_of(self.releases.as_slice(), version) {
            Some(i) => {
                assert(is_first_release(self@, version, i as int) && self.releases[i as int]
                    == self@[i as int]);
                &self.releases[i]
            },
            None => {
                assert(false);
                &self.releases[0]
            },
        }
    }

    /// The releases in the collection.
    pub fn iter(&self) -> (r: &[ReleaseData])
        ensures
            r@ == self@,
    {
        self.releases.as_slice()
    }

    /// Returns whether the collection holds no release.
    pub fn is_empty(&self) -> (r: bool)
        ensures
            r == (self@.len() == 0),
    {
        self.releases.len() == 0
    }

    /// Takes the releases out of the collection.
    pub fn into_releases(self) -> (r: Vec<ReleaseData>)
        ensures
            r@ == self@,
    {
        self.releases
    }
}

// ---------------------------------------------------------------------------
// Filtering releases
// ---------------------------------------------------------------------------

/// A predicate on releases.
pub type KeepPred = spec_fn(ReleaseData) -> bool;

/// Keeps the releases for which `keep` holds, in order; `keep` decides as
/// `p` says.
fn retain_releases<F: Fn(&ReleaseData) -> bool>(
    releases: Vec<ReleaseData>,
    keep: F,
    p: Ghost<KeepPred>,
) -> (r: Vec<ReleaseData>)
    requires
        forall|rd: &ReleaseData| #[trigger] keep.requires((rd,)),
        forall|rd: &ReleaseData, b: bool| keep.ensures((rd,), b) ==> b == (p@)(*rd),
    ensures
        r@ == releases@.filter(p@),
{
    let ghost all = releases@;
    let ghost p = p@;
    let mut rest = releases;
    let mut out: Vec<ReleaseData> = Vec::new();
    let ghost mut i: int = 0;
    proof {
        reveal(Seq::filter);
        assert(all.subrange(0, 0) =~= Seq::<ReleaseData>::empty());
        assert(all.subrange(0, all.len() as int) =~= all);
    }
    while rest.len() > 0
        invariant
            0 <= i <= all.len(),
            rest@ == all.subrange(i, all.len() as int),
            out@ == all.subrange(0, i).filter(p),
            forall|rd: &ReleaseData| #[trigger] keep.requires((rd,)),
            forall|rd: &ReleaseData, b: bool| keep.ensures((rd,), b) ==> b == p(*rd),
        decreases rest.len(),
    {
        let x = rest.remove(0);
        proof {
            assert(all.subrange(0, i + 1) == all.subrange(0, i).push(all[i]));
            all.subrange(0, i).lemma_filter_push(all[i], p);
            assert(rest@ =~= all.subrange(i + 1, all.len() as int));
            i = i + 1;
        }
        if keep(&x) {
            out.push(x);
        }
    }
    proof {
        assert(all.subrange(0, i) =~= all);
    }
    out
}

/// Filtering keeps releases sorted.
proof fn lemma_filter_releases_sorted(s: Seq<ReleaseData>, p: spec_fn(ReleaseData) -> bool)
    requires
        releases_sorted(s),
    ensures
        releases_sorted(s.filter(p)),
    decreases s.len(),
{
    reveal(Seq::filter);
    if s.len() > 0 {
        let d = s.drop_last();
        assert(releases_sorted(d));
        lemma_filter_releases_sorted(d, p);
        if p(s.last()) {
            let f = d.filter(p);
            assert forall|i: int| 0 <= i < f.len() implies version_le(f[i].version, s.last().version) by {
                d.lemma_filter_contains_rev(p, f[i]);
                let j = choose|j: int| 0 <= j < d.len() && d[j] == f[i];
                assert(version_le(s[j].version, s[s.len() - 1].version));
            }
            let g = f.push(s.last());
            assert forall|i: int, j: int| 0 <= i < j < g.len() implies version_le(
                #[trigger] g[i].version,
                #[trigger] g[j].version,
            ) by {
                if j == g.len() - 1 {
                    assert(version_le(f[i].version, s.last().version));
                } else {
                    assert(version_le(f[i].version, f[j].version));
                }
            }
        }
    }
}

// ---------------------------------------------------------------------------
// Sorting releases
// ---------------------------------------------------------------------------

/// Inserts `x` into the releases `v`, sorted by version, after every release
/// that is not newer.
fn insert_release(v: &mut Vec<ReleaseData>, x: ReleaseData)
    requires
        releases_sorted(old(v)@),
    ensures
        releases_sorted(final(v)@),
        final(v)@.to_multiset() == old(v)@.to_multiset().insert(x),
{
    let n = v.len();
    let mut k: usize = 0;
    while k < n && !x.version.is_older_than(&v[k].version)
        invariant
            n == v.len(),
            k <= n,
            forall|j: int| 0 <= j < k ==> version_le(#[trigger] v@[j].version, x.version),
        decreases n - k,
    {
        k = k + 1;
    }
    let ghost s = v@;
    let ghost xv = x.version;
    proof {
        lemma_version_order_total();
        assert forall|j: int| k <= j < n implies !version_le(#[trigger] s[j].version, xv)
            || s[j].version == xv by {
            if k < n {
                assert(version_le(s[k as int].version, s[j].version));
            }
        }
    }
    v.insert(k, x);
    proof {
        broadcast use vstd::seq_lib::group_to_multiset_ensures;

        let t = v@;
        assert(t == s.insert(k as int, x));
        assert forall|i: int, j: int| 0 <= i < j < t.len() implies version_le(
            #[trigger] t[i].version,
            #[trigger] t[j].version,
        ) by {
            lemma_version_order_total();
            if j < k {
                assert(version_le(s[i].version, s[j].version));
            } else if j == k {
                assert(version_le(s[i].version, xv));
            } else if i < k {
                assert(version_le(s[i].version, xv));
                assert(version_le(xv, s[k as int].version));
                assert(version_le(s[k as int].version, s[j - 1].version));
            } else if i == k {
                assert(version_le(s[k as int].version, s[j - 1].version));
            } else {
                assert(version_le(s[i - 1].version, s[j - 1].version));
            }
        }
    }
}

/// A release collection whose releases are sorted by version, oldest first.
pub struct SortedReleaseCollection(ReleaseCollection);

impl View for SortedReleaseCollection {
    type V = Seq<ReleaseData>;

    closed spec fn view(&self) -> Seq<ReleaseData> {
        self.0@
    }
}

impl SortedReleaseCollection {
    /// The releases are sorted by version.
    pub open spec fn wf(&self) -> bool {
        releases_sorted(self@)
    }

    /// When the collection was last brought up to date.
    pub closed spec fn updated_at(&self) -> i64 {
        self.0.last_updated
    }

    /// The version the release service recommends.
    pub closed spec fn suggested(&self) -> Option<UnityVersion> {
        self.0.suggested_version
    }

    /// Sorts the releases by version in ascending order.
    pub fn new(collection: ReleaseCollection) -> (r: Self)
        ensures
            r.wf(),
            r@.to_multiset() == collection@.to_multiset(),
            r.updated_at() == collection.last_updated,
            r.suggested() == collection.suggested_version,
    {
        let ReleaseCollection { last_updated, suggested_version, releases } = collection;
        let mut rest = releases;
        let mut out: Vec<ReleaseData> = Vec::new();
        let ghost all = rest@;
        proof {
            broadcast use vstd::seq_lib::group_to_multiset_ensures;

            assert(out@.to_multiset() =~= Multiset::empty());
            assert(all.to_multiset() =~= rest@.to_multiset().add(out@.to_multiset()));
        }
        while rest.len() > 0
            invariant
                releases_sorted(out@),
                all.to_multiset() == rest@.to_multiset().add(out@.to_multiset()),
            decreases rest.len(),
        {
            let ghost before = rest@;
            let x = rest.pop().unwrap();
            proof {
                broadcast use vstd::seq_lib::group_to_multiset_ensures;

                assert(before == rest@.push(x));
            }
            insert_release(&mut out, x);
            proof {
                broadcast use vstd::multiset::group_multiset_axioms;

                assert(all.to_multiset() =~= rest@.to_multiset().add(out@.to_multiset()));
            }
        }
        proof {
            broadcast use vstd::seq_lib::group_to_multiset_ensures;
            broadcast use vstd::multiset::group_multiset_axioms;

            assert(rest@.to_multiset() =~= Multiset::empty());
            assert(all.to_multiset() =~= out@.to_multiset());
        }
        SortedReleaseCollection(ReleaseCollection { last_updated, suggested_version, releases: out })
    }

    /// When the collection was last brought up to date.
    pub fn last_updated(&self) -> (r: i64)
        ensures
            r == self.updated_at(),
    {
        self.0.last_updated
    }

    /// The version the release service recommends.
    pub fn suggested_version(&self) -> (r: Option<UnityVersion>)
        ensures
            r == self.suggested(),
    {
        self.0.suggested_version
    }

    /// The releases, oldest first.
    pub fn iter(&self) -> (r: &[ReleaseData])
        ensures
            r@ == self@,
    {
        self.0.iter()
    }

    /// Returns whether the collection holds no release.
    pub fn is_empty(&self) -> (r: bool)
        ensures
            r == (self@.len() == 0),
    {
        self.0.is_empty()
    }

    /// Returns the release with the given version, which must be in the
    /// collection.
    pub fn get_by_version(&self, version: UnityVersion) -> (r: &ReleaseData)
        requires
            has_release(self@, version),
        ensures
            exists|i: int| is_first_release(self@, version, i) && *r == self@[i],
    {
        self.0.get_by_version(version)
    }

    /// Removes and returns the release at the given index.
    pub fn remove(&mut self, index: usize) -> (r: ReleaseData)
        requires
            old(self).wf(),
            index < old(self)@.len(),
        ensures
            r == old(self)@[index as int],
            final(self)@ == old(self)@.remove(index as int),
            final(self).wf(),
            final(self).updated_at() == old(self).updated_at(),
            final(self).suggested() == old(self).suggested(),
    {
        let r = self.0.releases.remove(index);
        r
    }

    /// Keeps only the releases whose version starts with the given prefix.
    pub fn retain_with_prefix(self, prefix: &str) -> (r: Self)
        requires
            self.wf(),
        ensures
            r@ == self@.filter(|rd: ReleaseData| version_has_prefix(rd.version, prefix@)),
            r.wf(),
            r.updated_at() == self.updated_at(),
            r.suggested() == self.suggested(),
    {
        let pc = chars_of(prefix);
        let ghost pv = prefix@;
        let SortedReleaseCollection(ReleaseCollection { last_updated, suggested_version, releases }) =
            self;
        let ghost p = |rd: ReleaseData| version_has_prefix(rd.version, pv);
        let pcs = pc.as_slice();
        let keep = |rd: &ReleaseData| -> (b: bool)
            ensures
                b == version_has_prefix(rd.version, pcs@),
            { has_prefix(rd.version, pcs) };
        let kept = retain_releases(releases, keep, Ghost(p));
        proof {
            lemma_filter_releases_sorted(releases@, p);
        }
        SortedReleaseCollection(ReleaseCollection { last_updated, suggested_version, releases: kept })
    }

    /// Takes the releases out of the collection.
    pub fn into_collection(self) -> (r: ReleaseCollection)
        ensures
            r@ == self@,
            r.last_updated == self.updated_at(),
            r.suggested_version == self.suggested(),
    {
        self.0
    }
}

// ---------------------------------------------------------------------------
// Updates of a version
// ---------------------------------------------------------------------------

/// `rd` is `v` or a newer release of the same `major.minor` series.
pub open spec fn is_update_candidate(v: UnityVersion, rd: ReleaseData) -> bool {
    rd.version.major == v.major && rd.version.minor == v.minor && version_le(v, rd.version)
}

/// The predicate that selects `v` and the newer releases of its series.
pub open spec fn candidate_pred(v: UnityVersion) -> spec_fn(ReleaseData) -> bool {
    |rd: ReleaseData| is_update_candidate(v, rd)
}

/// The releases of `s` that are `v` or newer releases of its series.
pub open spec fn update_candidates(s: Seq<ReleaseData>, v: UnityVersion) -> Seq<ReleaseData> {
    s.filter(candidate_pred(v))
}

/// The current release and newer releases.
pub struct ReleaseUpdates {
    pub current_release: ReleaseData,
    pub newer_releases: SortedReleaseCollection,
}

/// Why the updates of a version could not be found.
#[derive(Debug, PartialEq, Eq, Structural, Clone, Copy)]
pub enum UpdatesError {
    /// The version is not among the known releases.
    VersionNotFound(UnityVersion),
}

/// Finds, among the known releases, the release of the given version and
/// the newer releases of its `major.minor` series.
pub fn find_available_updates(version: UnityVersion, releases: SortedReleaseCollection) -> (r:
    Result<ReleaseUpdates, UpdatesError>)
    requires
        releases.wf(),
    ensures
        ({
            let c = update_candidates(releases@, version);
            match r {
                Ok(u) => exists|i: int|
                    is_first_release(c, version, i) && u.current_release == c[i]
                        && u.newer_releases@ == c.remove(i),
                Err(e) => !has_release(c, version) && e == UpdatesError::VersionNotFound(version),
            }
        }),
        r matches Ok(u) ==> u.newer_releases.wf(),
        r matches Ok(u) ==> u.newer_releases.updated_at() == releases.updated_at()
            && u.newer_releases.suggested() == releases.suggested(),
{
    let SortedReleaseCollection(ReleaseCollection { last_updated, suggested_version, releases }) =
        releases;
    let ghost p = candidate_pred(version);
    let keep = |rd: &ReleaseData| -> (b: bool)
        ensures
            b == is_update_candidate(version, *rd),
        {
            rd.version.major == version.major && rd.version.minor == version.minor && (
            !rd.version.is_older_than(&version))
        };
    proof {
        lemma_version_order_total();
    }
    let ghost all = releases@;
    let kept = retain_releases(releases, keep, Ghost(p));
    proof {
        lemma_filter_releases_sorted(all, p);
    }
    let mut newer = SortedReleaseCollection(
        ReleaseCollection { last_updated, suggested_version, releases: kept },
    );
    match position_of(newer.iter(), version) {
        Some(i) => {
            let ghost c = newer@;
            let current_release = newer.remove(i);
            assert(c == update_candidates(all, version));
            assert(is_first_release(c, version, i as int));
            assert(current_release == c[i as int]);
            assert(newer@ == c.remove(i as int));
            Ok(ReleaseUpdates { current_release, newer_releases: newer })
        },
        None => Err(UpdatesError::VersionNotFound(version)),
    }
}

// ---------------------------------------------------------------------------
// Downloading release data page by page
// ---------------------------------------------------------------------------

/// The releases after adding those of `page` to `rs` one by one; unless
/// all are fetched, a release whose version is already there is skipped.
pub open spec fn merged(rs: Seq<ReleaseData>, page: Seq<ReleaseData>, fetch_all: bool) -> Seq<
    ReleaseData,
>
    decreases page.len(),
{
    if page.len() == 0 {
        rs
    } else {
        let before = merged(rs, page.drop_last(), fetch_all);
        if !fetch_all && has_release(before, page.last().version) {
            before
        } else {
            before.push(page.last())
        }
    }
}

/// The suggested version after adding the releases of `page` one by one:
/// the version of the last added release that is recommended, if any.
pub open spec fn merged_suggestion(
    rs: Seq<ReleaseData>,
    page: Seq<ReleaseData>,
    fetch_all: bool,
    suggested: Option<UnityVersion>,
) -> Option<UnityVersion>
    decreases page.len(),
{
    if page.len() == 0 {
        suggested
    } else {
        let before = merged(rs, page.drop_last(), fetch_all);
        let s = merged_suggestion(rs, page.drop_last(), fetch_all, suggested);
        if !fetch_all && has_release(before, page.last().version) {
            s
        } else if page.last().recommended {
            Some(page.last().version)
        } else {
            s
        }
    }
}

/// Adding releases one by one never removes one.
pub proof fn lemma_merged_grows(rs: Seq<ReleaseData>, page: Seq<ReleaseData>, fetch_all: bool)
    ensures
        merged(rs, page, fetch_all).len() >= rs.len(),
        merged(rs, page, fetch_all).subrange(0, rs.len() as int) == rs,
        merged(rs, page, fetch_all).len() <= rs.len() + page.len(),
    decreases page.len(),
{
    if page.len() > 0 {
        lemma_merged_grows(rs, page.drop_last(), fetch_all);
        let before = merged(rs, page.drop_last(), fetch_all);
        assert(before.push(page.last()).subrange(0, rs.len() as int) =~= before.subrange(
            0,
            rs.len() as int,
        ));
    }
}

/// The number of releases to ask for per page: all when nothing is known
/// yet, else a few at a time.
pub fn page_limit(fetch_all: bool) -> (r: usize)
    ensures
        r == (if fetch_all {
            25usize
        } else {
            5usize
        }),
{
    if fetch_all {
        25
    } else {
        5
    }
}

/// Adds the releases of a downloaded page to the collection and returns how
/// many were added. Unless all are fetched, a release whose version is
/// already known is skipped. A recommended release that is added becomes the
/// suggested version.
pub fn merge_page(releases: &mut ReleaseCollection, page: Vec<ReleaseData>, fetch_all: bool) -> (r:
    usize)
    ensures
        final(releases)@ == merged(old(releases)@, page@, fetch_all),
        final(releases).suggested_version == merged_suggestion(
            old(releases)@,
            page@,
            fetch_all,
            old(releases).suggested_version,
        ),
        final(releases).last_updated == old(releases).last_updated,
        r == final(releases)@.len() - old(releases)@.len(),
{
    let ghost rs0 = releases@;
    let ghost s0 = releases.suggested_version;
    let ghost pg = page@;
    let n = page.len();
    let mut rest = page;
    let mut added: usize = 0;
    let ghost mut i: int = 0;
    proof {
        assert(pg.subrange(0, 0) =~= Seq::<ReleaseData>::empty());
        assert(pg.subrange(0, pg.len() as int) =~= pg);
    }
    while rest.len() > 0
        invariant
            0 <= i <= pg.len(),
            pg.len() == n,
            rest@ == pg.subrange(i, pg.len() as int),
            releases@ == merged(rs0, pg.subrange(0, i), fetch_all),
            releases.suggested_version == merged_suggestion(
                rs0,
                pg.subrange(0, i),
                fetch_all,
                s0,
            ),
            releases.last_updated == old(releases).last_updated,
            added == releases@.len() - rs0.len(),
            added <= i,
        decreases rest.len(),
    {
        let release = rest.remove(0);
        proof {
            let q = pg.subrange(0, i + 1);
            assert(q.drop_last() =~= pg.subrange(0, i));
            assert(q.last() == pg[i]);
            assert(rest@ =~= pg.subrange(i + 1, pg.len() as int));
            i = i + 1;
        }
        if !fetch_all && releases.has_version(release.version) {
        } else {
            if release.recommended {
                releases.suggested_version = Some(release.version);
            }
            releases.releases.push(release);
            added = added + 1;
        }
    }
    proof {
        assert(pg.subrange(0, i) =~= pg);
    }
    added
}

/// Where the page-by-page download of release data stands.
pub struct FetchProgress {
    /// All releases are downloaded, as the collection was empty.
    pub fetch_all: bool,
    /// The number of releases asked for per page.
    pub limit: usize,
    /// The offset of the next page.
    pub offset: usize,
    /// The number of releases the service reported.
    pub total: usize,
    /// The number of releases added so far.
    pub fetched: usize,
    /// The download has ended.
    pub done: bool,
}

impl FetchProgress {
    /// Starts a download into the given collection: everything when it is
    /// empty, else only releases that are new.
    pub fn start(releases: &ReleaseCollection) -> (r: Self)
        ensures
            r.fetch_all == (releases@.len() == 0),
            r.limit == (if r.fetch_all {
                25usize
            } else {
                5usize
            }),
            r.offset == 0,
            r.total == usize::MAX,
            r.fetched == 0,
            !r.done,
    {
        let fetch_all = releases.is_empty();
        FetchProgress {
            fetch_all,
            limit: page_limit(fetch_all),
            offset: 0,
            total: usize::MAX,
            fetched: 0,
            done: false,
        }
    }

    /// The page to ask for next, as limit and offset, or `None` when the
    /// download has ended.
    pub fn next_request(&self) -> (r: Option<(usize, usize)>)
        ensures
            r == (if self.done || self.offset >= self.total {
                None
            } else {
                Some((self.limit, self.offset))
            }),
    {
        if self.done || self.offset >= self.total {
            None
        } else {
            Some((self.limit, self.offset))
        }
    }

    /// Takes in a downloaded page with the total the service reported: its
    /// releases are merged into the collection. The download ends at an
    /// empty page, and at a page that added nothing, as the releases are
    /// ordered newest first.
    pub fn receive(&mut self, releases: &mut ReleaseCollection, total: usize, page: Vec<ReleaseData>)
        requires
            !old(self).done,
        ensures
            final(self).total == total,
            final(self).fetch_all == old(self).fetch_all,
            final(self).limit == old(self).limit,
            page@.len() == 0 ==> final(self).done && final(releases)@ == old(releases)@
                && final(self).fetched == old(self).fetched && final(self).offset == old(
                self,
            ).offset && final(releases).suggested_version == old(releases).suggested_version,
            page@.len() > 0 ==> {
                &&& final(releases)@ == merged(old(releases)@, page@, old(self).fetch_all)
                &&& final(releases).suggested_version == merged_suggestion(
                    old(releases)@,
                    page@,
                    old(self).fetch_all,
                    old(releases).suggested_version,
                )
                &&& final(self).done == (final(releases)@.len() == old(releases)@.len())
                &&& final(self).fetched == sat_add(
                    old(self).fetched as int,
                    final(releases)@.len() - old(releases)@.len(),
                )
                &&& final(self).offset == (if final(self).done {
                    old(self).offset as int
                } else {
                    sat_add(old(self).offset as int, old(self).limit as int)
                })
            },
            final(releases).last_updated == old(releases).last_updated,
    {
        self.total = total;
        if page.len() == 0 {
            self.done = true;
            return ;
        }
        let added = merge_page(releases, page, self.fetch_all);
        if added == 0 {
            self.done = true;
        } else {
            self.fetched = self.fetched.saturating_add(added);
            self.offset = self.offset.saturating_add(self.limit);
        }
    }
}

/// `a + b`, or the largest `usize` when that is larger.
pub open spec fn sat_add(a: int, b: int) -> int {
    if a + b > usize::MAX {
        usize::MAX as int
    } else {
        a + b
    }
}

// ---------------------------------------------------------------------------
// The release to install
// ---------------------------------------------------------------------------

/// The release at `i` of `s` is the newest whose version starts with the
/// prefix, and the last such one among equals.
pub open spec fn is_install_candidate(s: Seq<ReleaseData>, prefix: Seq<char>, i: int) -> bool {
    &&& 0 <= i < s.len()
    &&& version_has_prefix(s[i].version, prefix)
    &&& forall|j: int|
        0 <= j < s.len() && version_has_prefix(#[trigger] s[j].version, prefix) ==> version_le(
            s[j].version,
            s[i].version,
        ) && (j > i ==> s[j].version != s[i].version)
}

/// Returns the index of the newest release whose version starts with the
/// given prefix, the last one among equals; `None` when no version matches.
pub fn install_candidate(releases: &[ReleaseData], partial_version: &str) -> (r: Option<usize>)
    ensures
        match r {
            Some(i) => is_install_candidate(releases@, partial_version@, i as int),
            None => forall|j: int|
                0 <= j < releases@.len() ==> !version_has_prefix(
                    #[trigger] releases@[j].version,
                    partial_version@,
                ),
        },
{
    let pc = chars_of(partial_version);
    let mut best: Option<usize> = None;
    let mut i: usize = 0;
    proof {
        lemma_version_order_total();
    }
    while i < releases.len()
        invariant
            i <= releases@.len(),
            pc@ == partial_version@,
            match best {
                Some(b) => b < i && version_has_prefix(releases@[b as int].version, pc@) && forall|
                    j: int,
                |
                    0 <= j < i && version_has_prefix(#[trigger] releases@[j].version, pc@)
                        ==> version_le(releases@[j].version, releases@[b as int].version) && (j
                        > b ==> releases@[j].version != releases@[b as int].version),
                None => forall|j: int|
                    0 <= j < i ==> !version_has_prefix(#[trigger] releases@[j].version, pc@),
            },
        decreases releases@.len() - i,
    {
        if has_prefix(releases[i].version, pc.as_slice()) {
            match best {
                None => {
                    best = Some(i);
                },
                Some(b) => {
                    if !releases[i].version.is_older_than(&releases[b].version) {
                        proof {
                            lemma_version_order_total();
                            assert forall|j: int|
                                0 <= j < i + 1 && version_has_prefix(
                                    #[trigger] releases@[j].version,
                                    pc@,
                                ) implies version_le(
                                releases@[j].version,
                                releases@[i as int].version,
                            ) && (j > i ==> releases@[j].version != releases@[i as int].version) by {
                                if j < i {
                                    assert(version_le(
                                        releases@[j].version,
                                        releases@[b as int].version,
                                    ));
                                    assert(version_le(
                                        releases@[b as int].version,
                                        releases@[i as int].version,
                                    ));
                                    assert(version_order()(
                                        releases@[j].version,
                                        releases@[b as int].version,
                                    ));
                                    assert(version_order()(
                                        releases@[b as int].version,
                                        releases@[i as int].version,
                                    ));
                                }
                            }
                        }
                        best = Some(i);
                    }
                },
            }
        }
        i = i + 1;
    }
    best
}

/// What to do about the newest release of a project's series.
#[derive(Debug, PartialEq, Eq, Structural, Clone, Copy)]
pub enum NewerReleaseAction {
    /// Nothing: there is no newer release, or it is installed.
    Nothing,
    /// Install it, as asked.
    Install,
    /// Tell how to install it.
    Suggest,
}

/// Decides what to do about the newest release of a project's series: it is
/// installed when asked to, and suggested otherwise, unless there is none or
/// it is installed already.
pub fn newer_release_action(has_newer: bool, is_installed: bool, install_update: bool) -> (r:
    NewerReleaseAction)
    ensures
        r == (if !has_newer || is_installed {
            NewerReleaseAction::Nothing
        } else if install_update {
            NewerReleaseAction::Install
        } else {
            NewerReleaseAction::Suggest
        }),
{
    if !has_newer || is_installed {
        NewerReleaseAction::Nothing
    } else if install_update {
        NewerReleaseAction::Install
    } else {
        NewerReleaseAction::Suggest
    }
}

// ---------------------------------------------------------------------------
// Laws
// ---------------------------------------------------------------------------

/// The releases that `find_available_updates` gives as newer are of the
/// version's `major.minor` series and not older than it, and remain sorted.
pub proof fn law_updates_are_newer(s: Seq<ReleaseData>, v: UnityVersion, i: int)
    requires
        releases_sorted(s),
        is_first_release(update_candidates(s, v), v, i),
    ensures
        ({
            let newer = update_candidates(s, v).remove(i);
            &&& forall|k: int|
                0 <= k < newer.len() ==> (#[trigger] newer[k]).version.major == v.major
                    && newer[k].version.minor == v.minor && version_le(v, newer[k].version)
            &&& releases_sorted(newer)
            &&& update_candidates(s, v)[i].version == v
        }),
{
    broadcast use vstd::seq_lib::group_filter_ensures;

    let c = update_candidates(s, v);
    let newer = c.remove(i);
    lemma_filter_releases_sorted(s, candidate_pred(v));
    assert forall|k: int| 0 <= k < newer.len() implies (#[trigger] newer[k]).version.major == v.major
        && newer[k].version.minor == v.minor && version_le(v, newer[k].version) by {
        let j = if k < i {
            k
        } else {
            k + 1
        };
        assert(newer[k] == c[j]);
        s.lemma_filter_pred(candidate_pred(v), j);
    }
    assert forall|a: int, b: int| 0 <= a < b < newer.len() implies version_le(
        #[trigger] newer[a].version,
        #[trigger] newer[b].version,
    ) by {
        let ja = if a < i {
            a
        } else {
            a + 1
        };
        let jb = if b < i {
            b
        } else {
            b + 1
        };
        assert(newer[a] == c[ja] && newer[b] == c[jb]);
        assert(version_le(c[ja].version, c[jb].version));
    }
}

/// The newer releases reported with the release of a version are complete:
/// every known release of the version's `major.minor` series that is newer
/// than the version is among them, whatever its build type; and each of
/// them is a known release of that series that is not older than it.
pub proof fn law_updates_are_complete(s: Seq<ReleaseData>, v: UnityVersion, i: int)
    requires
        is_first_release(update_candidates(s, v), v, i),
    ensures
        forall|j: int|
            0 <= j < s.len() && (#[trigger] s[j]).version.major == v.major && s[j].version.minor == v.minor
                && version_lt(v, s[j].version) ==> update_candidates(s, v).remove(i).contains(s[j]),
        forall|x: ReleaseData|
            #[trigger] update_candidates(s, v).remove(i).contains(x) ==> s.contains(x) && x.version.major
                == v.major && x.version.minor == v.minor && (version_lt(v, x.version) || x.version == v),
{
    broadcast use vstd::seq_lib::group_filter_ensures;

    let c = update_candidates(s, v);
    let newer = c.remove(i);
    assert forall|j: int|
        0 <= j < s.len() && (#[trigger] s[j]).version.major == v.major && s[j].version.minor == v.minor
            && version_lt(v, s[j].version) implies newer.contains(s[j]) by {
        assert(s.contains(s[j]));
        assert(candidate_pred(v)(s[j]));
        s.lemma_filter_contains(candidate_pred(v), j);
        assert(c.contains(s[j]));
        let k = choose|k: int| 0 <= k < c.len() && c[k] == s[j];
        assert(k != i);
        if k < i {
            assert(newer[k] == c[k]);
        } else {
            assert(newer[k - 1] == c[k]);
        }
    }
    assert forall|x: ReleaseData| #[trigger] newer.contains(x) implies s.contains(x) && x.version.major
        == v.major && x.version.minor == v.minor && (version_lt(v, x.version) || x.version == v) by {
        let k = choose|k: int| 0 <= k < newer.len() && newer[k] == x;
        let m = if k < i {
            k
        } else {
            k + 1
        };
        assert(newer[k] == c[m]);
        s.lemma_filter_pred(candidate_pred(v), m);
        assert(c.contains(x));
        s.lemma_filter_contains_rev(candidate_pred(v), x);
    }
}

/// No two releases of `s` have the same version.
pub open spec fn distinct_versions(s: Seq<ReleaseData>) -> bool {
    forall|i: int, j: int| 0 <= i < j < s.len() ==> (#[trigger] s[i]).version != (#[trigger] s[j]).version
}

/// Adding a page of releases keeps the known releases in front; unless all
/// are fetched, a release whose version is known is not added again, so a
/// collection without repeated versions stays without.
pub proof fn law_merge_keeps_versions_distinct(rs: Seq<ReleaseData>, page: Seq<ReleaseData>)
    requires
        distinct_versions(rs),
    ensures
        distinct_versions(merged(rs, page, false)),
        merged(rs, page, false).subrange(0, rs.len() as int) == rs,
    decreases page.len(),
{
    lemma_merged_grows(rs, page, false);
    if page.len() > 0 {
        law_merge_keeps_versions_distinct(rs, page.drop_last());
        let before = merged(rs, page.drop_last(), false);
        if !has_release(before, page.last().version) {
            let after = before.push(page.last());
            assert forall|i: int, j: int| 0 <= i < j < after.len() implies (#[trigger] after[i]).version
                != (#[trigger] after[j]).version by {
                if j == after.len() - 1 {
                    assert(after[i] == before[i]);
                }
            }
        }
    }
}

} // verus!
