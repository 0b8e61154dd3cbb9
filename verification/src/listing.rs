//! The rules behind the version lists the tool prints: grouping versions by
//! their `major.minor` series, picking the latest release of each series,
//! the tree connectors and the column widths.

use crate::nonempty::Vec1;
use crate::releases::{
    has_release, is_first_release, notes_url_chars, position_of, release_notes_url,
    releases_sorted, stream_label, ReleaseData, ReleaseStream,
};
use crate::project::opt_view;
use crate::text::{
    chars_of, find, first_occurrence, is_digit, is_whitespace, is_whitespace_char, push_char, push_str,
    slice_of, string_of,
};
use crate::version::{short_str, version_chars, version_len, version_lt, UnityVersion};
use crate::versions::{prefix_pred, version_has_prefix};
use vstd::prelude::*;
use vstd::string::StringExecFns;

verus! {

// ---------------------------------------------------------------------------
// Tree connectors
// ---------------------------------------------------------------------------

/// The connector drawn before an entry of a group: a lone entry, the first,
/// a middle or the last entry.
pub open spec fn connector_chars(is_first: bool, is_last: bool) -> Seq<char> {
    if is_first && is_last {
        "─"@
    } else if is_first {
        "┬"@
    } else if !is_last {
        "├"@
    } else {
        "└"@
    }
}

/// Returns the connector drawn before an entry of a group.
pub fn branch_connector(is_first_in_group: bool, is_last_in_group: bool) -> (r: &'static str)
    ensures
        r@ == connector_chars(is_first_in_group, is_last_in_group),
{
    match (is_first_in_group, is_last_in_group) {
        (true, true) => "─",
        (true, false) => "┬",
        (false, false) => "├",
        (false, true) => "└",
    }
}

/// The number of dashes that pad a stream label to the width of the stream
/// column, which is five characters.
pub fn stream_padding(stream: ReleaseStream) -> (r: usize)
    ensures
        r == (if stream_label(stream).len() >= 5 {
            0
        } else {
            5 - stream_label(stream).len()
        }),
{
    let label = stream.as_str();
    proof {
        reveal_strlit("LTS");
        reveal_strlit("TECH");
        reveal_strlit("BETA");
        reveal_strlit("ALPHA");
        reveal_strlit("SUPP");
        reveal_strlit("OTHER");
    }
    let n = label.unicode_len();
    if n >= 5 {
        0
    } else {
        5 - n
    }
}

// ---------------------------------------------------------------------------
// Groups of versions of one `major.minor` series
// ---------------------------------------------------------------------------

/// `a` and `b` belong to the same `major.minor` series.
pub open spec fn same_series(a: UnityVersion, b: UnityVersion) -> bool {
    a.major == b.major && a.minor == b.minor
}

/// The runs of consecutive versions of `s` that belong to the same series,
/// in order.
pub open spec fn minor_groups(s: Seq<UnityVersion>) -> Seq<Seq<UnityVersion>>
    decreases s.len(),
{
    if s.len() == 0 {
        Seq::empty()
    } else {
        let g = minor_groups(s.drop_last());
        if g.len() > 0 && same_series(g.last().last(), s.last()) {
            g.update(g.len() - 1, g.last().push(s.last()))
        } else {
            g.push(seq![s.last()])
        }
    }
}

/// The versions of groups, one after the other.
pub open spec fn flatten_groups(g: Seq<Seq<UnityVersion>>) -> Seq<UnityVersion>
    decreases g.len(),
{
    if g.len() == 0 {
        Seq::empty()
    } else {
        flatten_groups(g.drop_last()) + g.last()
    }
}

/// Each group is non-empty and of one series, and neighbouring groups are
/// of different series.
pub open spec fn well_grouped(g: Seq<Seq<UnityVersion>>) -> bool {
    &&& forall|k: int| 0 <= k < g.len() ==> (#[trigger] g[k]).len() > 0
    &&& forall|k: int, i: int|
        0 <= k < g.len() && 0 <= i < g[k].len() ==> same_series(#[trigger] g[k][i], g[k][0])
    &&& forall|k: int|
        0 < k < g.len() ==> !same_series(#[trigger] g[k][0], g[k - 1].last())
}

/// Grouping a sequence of versions by series splits it into runs: the groups
/// give back the sequence one after the other, each group is non-empty and of
/// one series, and neighbouring groups are of different series.
pub proof fn law_minor_groups_partition(s: Seq<UnityVersion>)
    ensures
        flatten_groups(minor_groups(s)) == s,
        well_grouped(minor_groups(s)),
    decreases s.len(),
{
    if s.len() > 0 {
        let d = s.drop_last();
        law_minor_groups_partition(d);
        let g = minor_groups(d);
        let x = s.last();
        if g.len() > 0 && same_series(g.last().last(), x) {
            let h = g.update(g.len() - 1, g.last().push(x));
            assert(h.drop_last() =~= g.drop_last());
            assert(flatten_groups(h) =~= flatten_groups(g) + seq![x]);
            assert(s =~= d + seq![x]);
            assert forall|k: int, i: int|
                0 <= k < h.len() && 0 <= i < h[k].len() implies same_series(
                #[trigger] h[k][i],
                h[k][0],
            ) by {
                if k == h.len() - 1 && i == h[k].len() - 1 {
                    assert(same_series(g.last()[g.last().len() - 1], g.last()[0]));
                }
            }
        } else {
            let h = g.push(seq![x]);
            assert(h.drop_last() =~= g);
            assert(s =~= d + seq![x]);
        }
    }
}

/// The kind of an entry in a list of versions.
pub enum VersionType {
    /// A newer version of the same series is installed.
    HasLaterInstalled,
    /// The newest installed version of its series.
    LatestInstalled,
    /// A newer release of the series, the release at the given index.
    UpdateToLatest(usize),
    /// No release information is known for the series.
    NoReleaseInfo,
}

/// An entry in a list of versions.
pub struct VersionInfo {
    pub version: UnityVersion,
    pub version_type: VersionType,
}

/// The entry for the `i`-th version of the group `g`: the last is the latest
/// installed version of the series.
pub open spec fn group_entry(g: Seq<UnityVersion>, i: int) -> VersionInfo {
    VersionInfo {
        version: g[i],
        version_type: if i == g.len() - 1 {
            VersionType::LatestInstalled
        } else {
            VersionType::HasLaterInstalled
        },
    }
}

/// The entries of the group `g`.
pub open spec fn group_entries(g: Seq<UnityVersion>) -> Seq<VersionInfo> {
    Seq::new(g.len(), |i: int| group_entry(g, i))
}

/// Splits the versions into runs of the same series, in order.
fn split_by_series(s: &[UnityVersion]) -> (r: Vec<Vec<UnityVersion>>)
    ensures
        r@.len() == minor_groups(s@).len(),
        forall|k: int| 0 <= k < r@.len() ==> (#[trigger] r@[k])@ == minor_groups(s@)[k],
{
    let mut out: Vec<Vec<UnityVersion>> = Vec::new();
    let n = s.len();
    let mut i: usize = 0;
    while i < n
        invariant
            n == s@.len(),
            i <= n,
            out@.len() == minor_groups(s@.subrange(0, i as int)).len(),
            forall|k: int|
                0 <= k < out@.len() ==> (#[trigger] out@[k])@ == minor_groups(
                    s@.subrange(0, i as int),
                )[k],
        decreases n - i,
    {
        let x = s[i];
        let ghost g = minor_groups(s@.subrange(0, i as int));
        proof {
            let t = s@.subrange(0, i + 1);
            assert(t.drop_last() =~= s@.subrange(0, i as int));
            assert(t.last() == x);
            law_minor_groups_partition(s@.subrange(0, i as int));
        }
        let m = out.len();
        let mut joined = false;
        if m > 0 {
            let lm = out[m - 1].len();
            if lm > 0 {
                let last = out[m - 1][lm - 1];
                if last.major == x.major && last.minor == x.minor {
                    let mut group = out.remove(m - 1);
                    group.push(x);
                    out.push(group);
                    joined = true;
                }
            }
        }
        if !joined {
            let mut group: Vec<UnityVersion> = Vec::new();
            group.push(x);
            out.push(group);
        }
        proof {
            let g2 = minor_groups(s@.subrange(0, i + 1));
            assert(out@.len() == g2.len());
            assert forall|k: int| 0 <= k < out@.len() implies (#[trigger] out@[k])@ == g2[k] by {
                if joined {
                    if k == m - 1 {
                        assert(out@[k]@ =~= g2[k]);
                    }
                } else {
                    if k == m {
                        assert(out@[k]@ =~= g2[k]);
                    }
                }
            }
        }
        i = i + 1;
    }
    proof {
        assert(s@.subrange(0, n as int) =~= s@);
    }
    out
}

/// The entries of one group.
fn entries_of(g: &Vec<UnityVersion>) -> (r: Vec1<VersionInfo>)
    requires
        g@.len() > 0,
    ensures
        r.wf(),
        r@ == group_entries(g@),
{
    let n = g.len();
    let mut out: Vec<VersionInfo> = Vec::new();
    let mut i: usize = 0;
    while i < n
        invariant
            n == g@.len(),
            i <= n,
            out@ == group_entries(g@).subrange(0, i as int),
        decreases n - i,
    {
        let version_type = if i + 1 == n {
            VersionType::LatestInstalled
        } else {
            VersionType::HasLaterInstalled
        };
        out.push(VersionInfo { version: g[i], version_type });
        assert(out@ =~= group_entries(g@).subrange(0, i + 1));
        i = i + 1;
    }
    assert(out@ =~= group_entries(g@));
    match Vec1::try_from(out) {
        Ok(r) => r,
        Err(_) => {
            assert(false);
            Vec1::new(VersionInfo { version: g[0], version_type: VersionType::LatestInstalled })
        },
    }
}

/// Returns the versions grouped by series: each group holds a run of
/// consecutive versions of one `major.minor` series, and the last entry of a
/// group is the latest installed version of it.
pub fn group_versions_by_minor(installed: &[UnityVersion]) -> (r: Vec<Vec1<VersionInfo>>)
    ensures
        r@.len() == minor_groups(installed@).len(),
        forall|k: int|
            0 <= k < r@.len() ==> (#[trigger] r@[k]).wf() && r@[k]@ == group_entries(
                minor_groups(installed@)[k],
            ),
{
    let groups = split_by_series(installed);
    proof {
        law_minor_groups_partition(installed@);
    }
    let ghost mg = minor_groups(installed@);
    let n = groups.len();
    let mut out: Vec<Vec1<VersionInfo>> = Vec::new();
    let mut k: usize = 0;
    while k < n
        invariant
            n == groups@.len(),
            n == mg.len(),
            k <= n,
            well_grouped(mg),
            forall|j: int| 0 <= j < n ==> (#[trigger] groups@[j])@ == mg[j],
            out@.len() == k,
            forall|j: int|
                0 <= j < k ==> (#[trigger] out@[j]).wf() && out@[j]@ == group_entries(mg[j]),
        decreases n - k,
    {
        assert(groups@[k as int]@.len() > 0);
        let e = entries_of(&groups[k]);
        out.push(e);
        k = k + 1;
    }
    out
}

// ---------------------------------------------------------------------------
// Updates of the installed series
// ---------------------------------------------------------------------------

/// The entries for the releases of `rs` that are of the series of `latest`
/// and newer than it, in order, each naming the release's index.
pub open spec fn update_entries(rs: Seq<ReleaseData>, latest: UnityVersion) -> Seq<VersionInfo>
    decreases rs.len(),
{
    if rs.len() == 0 {
        Seq::empty()
    } else {
        let e = update_entries(rs.drop_last(), latest);
        if same_series(rs.last().version, latest) && version_lt(latest, rs.last().version) {
            e.push(
                VersionInfo {
                    version: rs.last().version,
                    version_type: VersionType::UpdateToLatest((rs.len() - 1) as usize),
                },
            )
        } else {
            e
        }
    }
}

/// The updates listed for a series are exactly the known releases of that
/// `major.minor` series that are newer than its latest installed version:
/// each entry names, by its index, a release of the same major and minor
/// number that is newer, and every such release is listed.
pub proof fn law_updates_of_series(rs: Seq<ReleaseData>, latest: UnityVersion)
    requires
        rs.len() <= usize::MAX,
    ensures
        forall|k: int|
            0 <= k < update_entries(rs, latest).len() ==> {
                let e = #[trigger] update_entries(rs, latest)[k];
                &&& e.version_type is UpdateToLatest
                &&& (e.version_type->UpdateToLatest_0 as int) < rs.len()
                &&& rs[e.version_type->UpdateToLatest_0 as int].version == e.version
                &&& e.version.major == latest.major
                &&& e.version.minor == latest.minor
                &&& version_lt(latest, e.version)
            },
        forall|i: int|
            0 <= i < rs.len() && (#[trigger] rs[i]).version.major == latest.major && rs[i].version.minor
                == latest.minor && version_lt(latest, rs[i].version) ==> exists|k: int|
                0 <= k < update_entries(rs, latest).len() && #[trigger] update_entries(rs, latest)[k] == (
                VersionInfo { version: rs[i].version, version_type: VersionType::UpdateToLatest(i as usize) }),
    decreases rs.len(),
{
    if rs.len() > 0 {
        let p = rs.drop_last();
        law_updates_of_series(p, latest);
        let e = update_entries(p, latest);
        let r = update_entries(rs, latest);
        let n = rs.len() - 1;
        assert forall|k: int| 0 <= k < r.len() implies {
            let x = #[trigger] r[k];
            &&& x.version_type is UpdateToLatest
            &&& (x.version_type->UpdateToLatest_0 as int) < rs.len()
            &&& rs[x.version_type->UpdateToLatest_0 as int].version == x.version
            &&& x.version.major == latest.major
            &&& x.version.minor == latest.minor
            &&& version_lt(latest, x.version)
        } by {
            if k < e.len() {
                assert(r[k] == e[k]);
                let j = e[k].version_type->UpdateToLatest_0 as int;
                assert(rs[j] == p[j]);
            } else {
                assert(r[k].version_type == VersionType::UpdateToLatest(n as usize));
                assert(n as usize as int == n);
            }
        }
        assert forall|i: int|
            0 <= i < rs.len() && (#[trigger] rs[i]).version.major == latest.major && rs[i].version.minor
                == latest.minor && version_lt(latest, rs[i].version) implies exists|k: int|
            0 <= k < r.len() && #[trigger] r[k] == (VersionInfo {
                version: rs[i].version,
                version_type: VersionType::UpdateToLatest(i as usize),
            }) by {
            if i < n {
                assert(p[i] == rs[i]);
                let k = choose|k: int|
                    0 <= k < e.len() && #[trigger] e[k] == (VersionInfo {
                        version: p[i].version,
                        version_type: VersionType::UpdateToLatest(i as usize),
                    });
                assert(r[k] == e[k]);
            } else {
                assert(r[e.len() as int] == (VersionInfo {
                    version: rs[i].version,
                    version_type: VersionType::UpdateToLatest(i as usize),
                }));
            }
        }
    }
}

/// The updates of a series are listed in the order of the releases: an
/// entry further down names a later release.
pub proof fn law_updates_in_release_order(rs: Seq<ReleaseData>, latest: UnityVersion)
    requires
        rs.len() <= usize::MAX,
    ensures
        forall|k: int| 0 <= k < update_entries(rs, latest).len() ==> (#[trigger] update_entries(rs, latest)[k]).version_type
            is UpdateToLatest && ((update_entries(rs, latest)[k].version_type->UpdateToLatest_0) as int) < rs.len(),
        forall|k1: int, k2: int|
            0 <= k1 < k2 < update_entries(rs, latest).len() ==> ((#[trigger] update_entries(rs, latest)[k1]).version_type->UpdateToLatest_0 as int)
                < ((#[trigger] update_entries(rs, latest)[k2]).version_type->UpdateToLatest_0 as int),
    decreases rs.len(),
{
    if rs.len() > 0 {
        let p = rs.drop_last();
        law_updates_in_release_order(p, latest);
        let e = update_entries(p, latest);
        let r = update_entries(rs, latest);
        let n = rs.len() - 1;
        assert forall|k: int| 0 <= k < r.len() implies (#[trigger] r[k]).version_type is UpdateToLatest
            && ((r[k].version_type->UpdateToLatest_0) as int) < rs.len() by {
            if k < e.len() {
                assert(r[k] == e[k]);
            } else {
                assert(r[k].version_type == VersionType::UpdateToLatest(n as usize));
            }
        }
        assert forall|k1: int, k2: int| 0 <= k1 < k2 < r.len() implies ((#[trigger] r[k1]).version_type->UpdateToLatest_0 as int)
            < ((#[trigger] r[k2]).version_type->UpdateToLatest_0 as int) by {
            assert(r[k1] == e[k1]);
            if k2 < e.len() {
                assert(r[k2] == e[k2]);
            } else {
                assert(r[k2].version_type == VersionType::UpdateToLatest(n as usize));
                assert(n as usize as int == n);
            }
        }
    }
}

/// Some release of `rs` is of the series of `v`.
pub open spec fn series_known(rs: Seq<ReleaseData>, v: UnityVersion) -> bool {
    exists|i: int| 0 <= i < rs.len() && same_series((#[trigger] rs[i]).version, v)
}

/// A group of installed versions with what the releases say of its series:
/// the newer releases of the series after the group, or, when the releases
/// know nothing of the series, the group's latest entry marked so.
pub open spec fn with_updates(g: Seq<VersionInfo>, rs: Seq<ReleaseData>) -> Seq<VersionInfo> {
    let latest = g.last().version;
    if series_known(rs, latest) {
        g + update_entries(rs, latest)
    } else {
        g.update(g.len() - 1, VersionInfo { version: latest, version_type: VersionType::NoReleaseInfo })
    }
}

/// The entries a group of installed versions starts with name no update.
proof fn lemma_group_has_no_updates(g: Seq<UnityVersion>)
    ensures
        forall|k: int| 0 <= k < group_entries(g).len() ==> !((#[trigger] group_entries(g)[k]).version_type is UpdateToLatest),
{
    assert forall|k: int| 0 <= k < group_entries(g).len() implies !((#[trigger] group_entries(g)[k]).version_type is UpdateToLatest) by {
        assert(group_entries(g)[k] == group_entry(g, k));
    }
}

/// The entry `x` names the release of `rs` at its index as an update of
/// `latest`'s series.
pub open spec fn names_series_update(x: VersionInfo, rs: Seq<ReleaseData>, latest: UnityVersion) -> bool {
    let j = x.version_type->UpdateToLatest_0 as int;
    &&& j < rs.len()
    &&& rs[j].version == x.version
    &&& x.version.major == latest.major
    &&& x.version.minor == latest.minor
    &&& version_lt(latest, x.version)
}

/// The entry for the release of `rs` at index `i` as an update.
pub open spec fn update_entry_for(rs: Seq<ReleaseData>, i: int) -> VersionInfo {
    VersionInfo { version: rs[i].version, version_type: VersionType::UpdateToLatest(i as usize) }
}

/// The release `rd` is of `latest`'s series and newer than it.
pub open spec fn is_series_update(rd: ReleaseData, latest: UnityVersion) -> bool {
    rd.version.major == latest.major && rd.version.minor == latest.minor && version_lt(latest, rd.version)
}

/// Appending the updates to the group keeps what they say.
proof fn lemma_group_then_updates(ge: Seq<VersionInfo>, u: Seq<VersionInfo>, rs: Seq<ReleaseData>, latest: UnityVersion)
    requires
        forall|k: int| 0 <= k < ge.len() ==> !((#[trigger] ge[k]).version_type is UpdateToLatest),
        forall|k: int| 0 <= k < u.len() ==> (#[trigger] u[k]).version_type is UpdateToLatest && names_series_update(u[k], rs, latest),
        forall|i: int| 0 <= i < rs.len() && #[trigger] is_series_update(rs[i], latest) ==> exists|k: int|
            0 <= k < u.len() && #[trigger] u[k] == update_entry_for(rs, i),
    ensures
        forall|k: int| 0 <= k < (ge + u).len() && (#[trigger] (ge + u)[k]).version_type is UpdateToLatest ==> names_series_update((ge + u)[k], rs, latest),
        forall|i: int| 0 <= i < rs.len() && #[trigger] is_series_update(rs[i], latest) ==> exists|k: int|
            0 <= k < (ge + u).len() && #[trigger] (ge + u)[k] == update_entry_for(rs, i),
{
    let w = ge + u;
    assert forall|k: int| 0 <= k < w.len() && (#[trigger] w[k]).version_type is UpdateToLatest implies names_series_update(w[k], rs, latest) by {
        if k >= ge.len() {
            assert(w[k] == u[k - ge.len()]);
        }
    }
    assert forall|i: int| 0 <= i < rs.len() && #[trigger] is_series_update(rs[i], latest) implies exists|k: int|
        0 <= k < w.len() && #[trigger] w[k] == update_entry_for(rs, i) by {
        let k = choose|k: int| 0 <= k < u.len() && #[trigger] u[k] == update_entry_for(rs, i);
        assert(w[ge.len() + k] == u[k]);
    }
}

/// In a group of the updates list, the entries that name a release as an
/// update are exactly the known releases of the group's `major.minor`
/// series that are newer than the group's latest installed version.
pub proof fn law_group_updates(g: Seq<UnityVersion>, rs: Seq<ReleaseData>)
    requires
        g.len() > 0,
        rs.len() <= usize::MAX,
    ensures
        forall|k: int|
            0 <= k < with_updates(group_entries(g), rs).len() && (#[trigger] with_updates(
                group_entries(g),
                rs,
            )[k]).version_type is UpdateToLatest ==> names_series_update(
                with_updates(group_entries(g), rs)[k],
                rs,
                g.last(),
            ),
        forall|i: int|
            0 <= i < rs.len() && #[trigger] is_series_update(rs[i], g.last()) ==> exists|k: int|
                0 <= k < with_updates(group_entries(g), rs).len() && #[trigger] with_updates(
                    group_entries(g),
                    rs,
                )[k] == update_entry_for(rs, i),
{
    let ge = group_entries(g);
    let latest = g.last();
    assert(ge.last().version == latest);
    law_updates_of_series(rs, latest);
    lemma_group_has_no_updates(g);
    let u = update_entries(rs, latest);
    assert forall|k: int| 0 <= k < u.len() implies (#[trigger] u[k]).version_type is UpdateToLatest && names_series_update(u[k], rs, latest) by {}
    assert forall|i: int| 0 <= i < rs.len() && #[trigger] is_series_update(rs[i], latest) implies exists|k: int|
        0 <= k < u.len() && #[trigger] u[k] == update_entry_for(rs, i) by {
        assert(rs[i].version.major == latest.major);
    }
    if series_known(rs, latest) {
        assert(with_updates(ge, rs) == ge + u);
        lemma_group_then_updates(ge, u, rs, latest);
    } else {
        let w = ge.update(ge.len() - 1, VersionInfo { version: latest, version_type: VersionType::NoReleaseInfo });
        assert(with_updates(ge, rs) == w);
        assert forall|k: int| 0 <= k < w.len() implies !((#[trigger] w[k]).version_type is UpdateToLatest) by {
            if k != w.len() - 1 {
                assert(w[k] == ge[k]);
            }
        }
        assert forall|i: int| 0 <= i < rs.len() implies !#[trigger] is_series_update(rs[i], latest) by {
            if is_series_update(rs[i], latest) {
                assert(same_series(rs[i].version, latest));
            }
        }
    }
}

/// A group of the updates list starts with the group's installed versions
/// in order, each but the last marked as having a later one installed. The
/// last is marked as the latest installed version when some release of its
/// `major.minor` series is known; when none is, the group is only its
/// installed versions, the last marked as having no release information.
pub proof fn law_group_marking(g: Seq<UnityVersion>, rs: Seq<ReleaseData>)
    requires
        g.len() > 0,
    ensures
        with_updates(group_entries(g), rs).len() >= g.len(),
        forall|k: int| 0 <= k < g.len() ==> (#[trigger] with_updates(group_entries(g), rs)[k]).version == g[k],
        forall|k: int| 0 <= k < g.len() - 1 ==> (#[trigger] with_updates(group_entries(g), rs)[k]).version_type
            is HasLaterInstalled,
        (exists|i: int| 0 <= i < rs.len() && (#[trigger] rs[i]).version.major == g.last().major
            && rs[i].version.minor == g.last().minor) ==> with_updates(group_entries(g), rs)[g.len() - 1].version_type
            is LatestInstalled,
        !(exists|i: int| 0 <= i < rs.len() && (#[trigger] rs[i]).version.major == g.last().major
            && rs[i].version.minor == g.last().minor) ==> with_updates(group_entries(g), rs).len() == g.len()
            && with_updates(group_entries(g), rs)[g.len() - 1].version_type is NoReleaseInfo,
{
    let ge = group_entries(g);
    let latest = g.last();
    assert(ge.last().version == latest);
    let w = with_updates(ge, rs);
    assert forall|k: int| 0 <= k < g.len() implies (#[trigger] ge[k]) == group_entry(g, k) by {}
    if series_known(rs, latest) {
        let u = update_entries(rs, latest);
        assert(w == ge + u);
        assert forall|k: int| 0 <= k < g.len() implies (#[trigger] w[k]) == ge[k] by {}
    } else {
        assert forall|k: int| 0 <= k < g.len() - 1 implies (#[trigger] w[k]) == ge[k] by {}
    }
    if exists|i: int| 0 <= i < rs.len() && (#[trigger] rs[i]).version.major == latest.major
        && rs[i].version.minor == latest.minor {
        let i = choose|i: int| 0 <= i < rs.len() && (#[trigger] rs[i]).version.major == latest.major
            && rs[i].version.minor == latest.minor;
        assert(same_series(rs[i].version, latest));
    } else {
        if series_known(rs, latest) {
            let i = choose|i: int| 0 <= i < rs.len() && same_series((#[trigger] rs[i]).version, latest);
            assert(rs[i].version.major == latest.major);
        }
    }
}

/// The entries for the releases that update `latest`.
fn updates_for(releases: &[ReleaseData], latest: UnityVersion) -> (r: (Vec<VersionInfo>, bool))
    ensures
        r.0@ == update_entries(releases@, latest),
        r.1 == series_known(releases@, latest),
{
    let mut out: Vec<VersionInfo> = Vec::new();
    let mut known = false;
    let mut i: usize = 0;
    while i < releases.len()
        invariant
            i <= releases@.len(),
            out@ == update_entries(releases@.subrange(0, i as int), latest),
            known == series_known(releases@.subrange(0, i as int), latest),
        decreases releases@.len() - i,
    {
        let v = releases[i].version;
        proof {
            let t = releases@.subrange(0, i + 1);
            assert(t.drop_last() =~= releases@.subrange(0, i as int));
            assert(t.last() == releases@[i as int]);
            if series_known(t, latest) && !series_known(releases@.subrange(0, i as int), latest) {
                let j = choose|j: int| 0 <= j < t.len() && same_series((#[trigger] t[j]).version, latest);
                if j < i {
                    assert(releases@.subrange(0, i as int)[j] == t[j]);
                }
            }
            if series_known(releases@.subrange(0, i as int), latest) {
                let j = choose|j: int|
                    0 <= j < i && same_series((#[trigger] releases@.subrange(0, i as int)[j]).version, latest);
                assert(t[j] == releases@.subrange(0, i as int)[j]);
            }
        }
        if v.major == latest.major && v.minor == latest.minor {
            proof {
                let t = releases@.subrange(0, i + 1);
                assert(t[i as int] == releases@[i as int]);
            }
            known = true;
            if latest.is_older_than(&v) {
                out.push(VersionInfo { version: v, version_type: VersionType::UpdateToLatest(i) });
            }
        }
        i = i + 1;
    }
    assert(releases@.subrange(0, releases@.len() as int) =~= releases@);
    (out, known)
}

/// Groups the installed versions by series and adds to each group what the
/// releases say of its series: the newer releases of the series, or a mark
/// that nothing is known of it.
pub fn collect_version_update_info(installed: &[UnityVersion], releases: &[ReleaseData]) -> (r: Vec<
    Vec1<VersionInfo>,
>)
    ensures
        r@.len() == minor_groups(installed@).len(),
        forall|k: int|
            0 <= k < r@.len() ==> (#[trigger] r@[k]).wf() && r@[k]@ == with_updates(
                group_entries(minor_groups(installed@)[k]),
                releases@,
            ),
{
    let mut groups = group_versions_by_minor(installed);
    proof {
        law_minor_groups_partition(installed@);
    }
    let ghost mg = minor_groups(installed@);
    let n = groups.len();
    let mut out: Vec<Vec1<VersionInfo>> = Vec::new();
    let mut k: usize = 0;
    while k < n
        invariant
            n == mg.len(),
            groups@.len() == n - k,
            k <= n,
            forall|j: int|
                0 <= j < n - k ==> (#[trigger] groups@[j]).wf() && groups@[j]@ == group_entries(
                    mg[k + j],
                ),
            out@.len() == k,
            forall|j: int|
                0 <= j < k ==> (#[trigger] out@[j]).wf() && out@[j]@ == with_updates(
                    group_entries(mg[j]),
                    releases@,
                ),
        decreases n - k,
    {
        let ghost before = groups@;
        let mut group = groups.remove(0);
        let ghost g0 = group@;
        let latest = group.last().version;
        let (entries, known) = updates_for(releases, latest);
        if known {
            group.extend(entries);
        } else {
            let last = group.last_mut();
            last.version_type = VersionType::NoReleaseInfo;
            proof {
                assert(group@ =~= g0.update(g0.len() - 1, VersionInfo { version: latest, version_type: VersionType::NoReleaseInfo }));
            }
        }
        out.push(group);
        proof {
            assert forall|j: int| 0 <= j < n - (k + 1) implies (#[trigger] groups@[j]).wf() && groups@[j]@ == group_entries(mg[k + 1 + j]) by {
                assert(groups@[j] == before[j + 1]);
            }
        }
        k = k + 1;
    }
    out
}

/// What a line of the updates list says of its version.
#[derive(Debug, PartialEq, Eq, Structural, Clone, Copy)]
pub enum UpdateStatus {
    /// A version with a newer one of its series installed: no remark.
    Plain,
    /// The newest installed version, with no newer release.
    UpToDate,
    /// The newest installed version, with newer releases listed after it.
    UpdatesAvailable,
    /// A newer release of the series.
    UpdateToLatest,
    /// Nothing is known of the series' releases.
    NoReleaseInfo,
}

/// The remark on an entry of the updates list: the newest installed
/// version is up to date when it is the last entry of its group.
pub open spec fn status_of(t: VersionType, is_last_in_group: bool) -> UpdateStatus {
    match t {
        VersionType::HasLaterInstalled => UpdateStatus::Plain,
        VersionType::LatestInstalled => if is_last_in_group {
            UpdateStatus::UpToDate
        } else {
            UpdateStatus::UpdatesAvailable
        },
        VersionType::UpdateToLatest(_) => UpdateStatus::UpdateToLatest,
        VersionType::NoReleaseInfo => UpdateStatus::NoReleaseInfo,
    }
}

/// Returns the remark on an entry of the updates list.
pub fn update_status(t: &VersionType, is_last_in_group: bool) -> (r: UpdateStatus)
    ensures
        r == status_of(*t, is_last_in_group),
{
    match t {
        VersionType::HasLaterInstalled => UpdateStatus::Plain,
        VersionType::LatestInstalled => {
            if is_last_in_group {
                UpdateStatus::UpToDate
            } else {
                UpdateStatus::UpdatesAvailable
            }
        },
        VersionType::UpdateToLatest(_) => UpdateStatus::UpdateToLatest,
        VersionType::NoReleaseInfo => UpdateStatus::NoReleaseInfo,
    }
}

/// The connector of an entry in the list of the latest release of each
/// series: a major version's entries form a group.
pub open spec fn range_connector_chars(previous_major: Option<u16>, major: u16, next_major: Option<u16>) -> Seq<char> {
    connector_chars(
        previous_major != Some(major),
        match next_major {
            None => true,
            Some(n) => n != major,
        },
    )
}

/// Returns the connector of an entry in the list of the latest release of
/// each series, given the major version of the entries before and after it.
pub fn range_connector(previous_major: Option<u16>, major: u16, next_major: Option<u16>) -> (r: &'static str)
    ensures
        r@ == range_connector_chars(previous_major, major, next_major),
{
    let is_first = match previous_major {
        Some(p) => p != major,
        None => true,
    };
    let is_last = match next_major {
        None => true,
        Some(n) => n != major,
    };
    branch_connector(is_first, is_last)
}

// ---------------------------------------------------------------------------
// Column widths
// ---------------------------------------------------------------------------

/// The largest length of the string forms of the versions in the groups, or
/// zero when there are none.
pub fn find_max_version_length(groups: &[Vec1<VersionInfo>]) -> (r: usize)
    requires
        forall|k: int| 0 <= k < groups@.len() ==> (#[trigger] groups@[k]).wf(),
    ensures
        forall|k: int, i: int|
            0 <= k < groups@.len() && 0 <= i < groups@[k]@.len() ==> version_len(
                (#[trigger] groups@[k]@[i]).version,
            ) <= r,
        r == 0 || exists|k: int, i: int|
            0 <= k < groups@.len() && 0 <= i < groups@[k]@.len() && version_len(
                (#[trigger] groups@[k]@[i]).version,
            ) == r,
{
    let mut best: usize = 0;
    let n = groups.len();
    let mut k: usize = 0;
    while k < n
        invariant
            n == groups@.len(),
            k <= n,
            forall|j: int| 0 <= j < groups@.len() ==> (#[trigger] groups@[j]).wf(),
            forall|j: int, i: int|
                0 <= j < k && 0 <= i < groups@[j]@.len() ==> version_len(
                    (#[trigger] groups@[j]@[i]).version,
                ) <= best,
            best == 0 || exists|j: int, i: int|
                0 <= j < k && 0 <= i < groups@[j]@.len() && version_len(
                    (#[trigger] groups@[j]@[i]).version,
                ) == best,
        decreases n - k,
    {
        let group = groups[k].as_slice();
        let m = group.len();
        let mut i: usize = 0;
        while i < m
            invariant
                n == groups@.len(),
                k < n,
                m == group@.len(),
                group@ == groups@[k as int]@,
                i <= m,
                forall|j: int, l: int|
                    0 <= j < k && 0 <= l < groups@[j]@.len() ==> version_len(
                        (#[trigger] groups@[j]@[l]).version,
                    ) <= best,
                forall|l: int| 0 <= l < i ==> version_len((#[trigger] group@[l]).version) <= best,
                best == 0 || exists|j: int, l: int|
                    (0 <= j < k && 0 <= l < groups@[j]@.len() && version_len(
                        (#[trigger] groups@[j]@[l]).version,
                    ) == best) || (j == k && 0 <= l < i && version_len(groups@[j]@[l].version)
                        == best),
            decreases m - i,
        {
            let len = group[i].version.len();
            if len > best {
                best = len;
                assert(version_len(groups@[k as int]@[i as int].version) == best);
            }
            i = i + 1;
        }
        assert forall|j: int, l: int|
            0 <= j < k + 1 && 0 <= l < groups@[j]@.len() implies version_len(
            (#[trigger] groups@[j]@[l]).version,
        ) <= best by {
            if j == k {
                assert(version_len(group@[l].version) <= best);
            }
        }
        k = k + 1;
    }
    best
}

// ---------------------------------------------------------------------------
// The latest release of each series
// ---------------------------------------------------------------------------

/// The releases of `s` whose version starts with the prefix, if one is given.
pub open spec fn releases_matching(s: Seq<ReleaseData>, prefix: Option<Seq<char>>) -> Seq<
    ReleaseData,
> {
    match prefix {
        None => s,
        Some(p) => s.filter(release_prefix_pred(p)),
    }
}

/// The predicate that selects the releases whose version starts with `p`.
pub open spec fn release_prefix_pred(p: Seq<char>) -> spec_fn(ReleaseData) -> bool {
    |rd: ReleaseData| version_has_prefix(rd.version, p)
}

/// The last release of each run of releases of the same series in `s`, in
/// order.
pub open spec fn last_of_each_series(s: Seq<ReleaseData>) -> Seq<ReleaseData>
    decreases s.len(),
{
    if s.len() == 0 {
        Seq::empty()
    } else {
        let g = last_of_each_series(s.drop_last());
        if g.len() > 0 && same_series(g.last().version, s.last().version) {
            g.update(g.len() - 1, s.last())
        } else {
            g.push(s.last())
        }
    }
}

/// Returns the indices of the latest release of each `major.minor` series
/// among the releases that match the prefix, in order.
pub fn collect_latest_minor_releases(releases: &[ReleaseData], version_prefix: Option<&str>) -> (r:
    Vec<usize>)
    ensures
        ({
            let m = releases_matching(
                releases@,
                match version_prefix {
                    Some(p) => Some(p@),
                    None => None,
                },
            );
            &&& r@.len() == last_of_each_series(m).len()
            &&& forall|k: int|
                0 <= k < r@.len() ==> (#[trigger] r@[k]) < releases@.len() && releases@[r@[k] as int]
                    == last_of_each_series(m)[k]
        }),
{
    let ghost pfx: Option<Seq<char>> = match version_prefix {
        Some(p) => Some(p@),
        None => None,
    };
    let pc: Vec<char> = match version_prefix {
        Some(p) => chars_of(p),
        None => Vec::new(),
    };
    let ghost pp = release_prefix_pred(pc@);
    let ghost all = releases@;
    let n = releases.len();
    let mut out: Vec<usize> = Vec::new();
    let mut i: usize = 0;
    proof {
        reveal(Seq::filter);
    }
    while i < n
        invariant
            n == releases@.len(),
            all == releases@,
            i <= n,
            version_prefix is Some ==> pfx == Some(pc@),
            pp == release_prefix_pred(pc@),
            version_prefix is None ==> pfx is None,
            ({
                let m = releases_matching(all.subrange(0, i as int), pfx);
                &&& out@.len() == last_of_each_series(m).len()
                &&& forall|k: int|
                    0 <= k < out@.len() ==> (#[trigger] out@[k]) < i && all[out@[k] as int]
                        == last_of_each_series(m)[k]
            }),
        decreases n - i,
    {
        let ghost t = all.subrange(0, i + 1);
        proof {
            assert(t.drop_last() =~= all.subrange(0, i as int));
            assert(t.last() == all[i as int]);
            all.subrange(0, i as int).lemma_filter_push(all[i as int], pp);
            assert(t =~= all.subrange(0, i as int).push(all[i as int]));
        }
        let keep = match version_prefix {
            Some(_) => crate::versions::has_prefix(releases[i].version, pc.as_slice()),
            None => true,
        };
        if keep {
            let v = releases[i].version;
            let m = out.len();
            if m > 0 && releases[out[m - 1]].version.major == v.major && releases[out[m
                - 1]].version.minor == v.minor {
                out.set(m - 1, i);
            } else {
                out.push(i);
            }
        }
        proof {
            let m0 = releases_matching(all.subrange(0, i as int), pfx);
            let m1 = releases_matching(t, pfx);
            if version_prefix is Some {
                assert(keep == pp(all[i as int]));
                assert(m1 == all.subrange(0, i as int).push(all[i as int]).filter(pp));
            } else {
                assert(m1 == t);
                assert(m0 == all.subrange(0, i as int));
            }
            if keep {
                assert(m1 == m0.push(all[i as int]));
                assert(m1.drop_last() =~= m0);
            } else {
                assert(m1 == m0);
            }
        }
        i = i + 1;
    }
    proof {
        assert(all.subrange(0, n as int) =~= all);
    }
    out
}

/// The installed versions that belong to the series of `latest`, in order.
pub open spec fn installs_in_series(installed: Seq<UnityVersion>, latest: UnityVersion) -> Seq<
    UnityVersion,
> {
    installed.filter(|v: UnityVersion| same_series(v, latest))
}

/// Returns the installed versions that belong to the `major.minor` series of
/// the latest release `latest`, in order.
pub fn installs_in_range(installed: &[UnityVersion], latest: UnityVersion) -> (r: Vec<UnityVersion>)
    ensures
        r@ == installs_in_series(installed@, latest),
{
    let ghost pred = |v: UnityVersion| same_series(v, latest);
    let mut out: Vec<UnityVersion> = Vec::new();
    let n = installed.len();
    let mut i: usize = 0;
    while i < n
        invariant
            n == installed@.len(),
            i <= n,
            pred == (|v: UnityVersion| same_series(v, latest)),
            out@ == installed@.subrange(0, i as int).filter(pred),
        decreases n - i,
    {
        proof {
            assert(installed@.subrange(0, i + 1) == installed@.subrange(0, i as int).push(installed@[i as int]));
            installed@.subrange(0, i as int).lemma_filter_push(installed@[i as int], pred);
        }
        if installed[i].same_minor(&latest) {
            out.push(installed[i]);
        }
        i = i + 1;
    }
    proof {
        assert(installed@.subrange(0, n as int) == installed@);
    }
    out
}

/// Of the installed versions of a series, the newest is at least the
/// latest release: it is that release or newer.
pub open spec fn is_up_to_date(installed_in_range: Seq<UnityVersion>, latest: UnityVersion) -> bool {
    installed_in_range.len() > 0 && !version_lt(installed_in_range.last(), latest)
}

/// Returns whether the installed versions of a series, oldest first, are up
/// to date with the latest release of the series.
pub fn installed_up_to_date(installed_in_range: &[UnityVersion], latest: UnityVersion) -> (r: bool)
    ensures
        r == is_up_to_date(installed_in_range@, latest),
{
    let n = installed_in_range.len();
    if n == 0 {
        false
    } else {
        !installed_in_range[n - 1].is_older_than(&latest)
    }
}

/// The marker drawn before an entry of a list: a lone entry, the first, a
/// middle or the last entry.
pub open spec fn marker_chars(is_first: bool, is_last: bool) -> Seq<char> {
    if is_first && is_last {
        "──"@
    } else if is_first {
        "┬─"@
    } else if !is_last {
        "├─"@
    } else {
        "└─"@
    }
}

/// Returns the marker drawn before an entry of a list.
pub fn list_marker(is_first: bool, is_last: bool) -> (r: &'static str)
    ensures
        r@ == marker_chars(is_first, is_last),
{
    match (is_first, is_last) {
        (true, true) => "──",
        (true, false) => "┬─",
        (false, false) => "├─",
        (false, true) => "└─",
    }
}

// ---------------------------------------------------------------------------
// Links in descriptions
// ---------------------------------------------------------------------------

/// A character that ends a URL in a description.
pub open spec fn ends_url(c: char) -> bool {
    is_whitespace(c) || c == '"' || c == '<' || c == '>'
}

/// The number of characters of `s` before the first one that ends a URL.
pub open spec fn url_len(s: Seq<char>) -> int
    decreases s.len(),
{
    if s.len() == 0 || ends_url(s[0]) {
        0
    } else {
        1 + url_len(s.drop_first())
    }
}

/// The first URL in a text: from the first `http://`, or else the first
/// `https://`, up to the first whitespace, quote or angle bracket.
pub open spec fn first_url(t: Seq<char>) -> Option<Seq<char>> {
    let start = match first_occurrence(t, "http://"@) {
        Some(i) => Some(i),
        None => first_occurrence(t, "https://"@),
    };
    match start {
        Some(i) => {
            let rest = t.subrange(i, t.len() as int);
            Some(rest.subrange(0, url_len(rest)))
        },
        None => None,
    }
}

/// `url_len` counts the characters before the first that ends a URL.
proof fn lemma_url_len(s: Seq<char>, k: int)
    requires
        0 <= k <= s.len(),
        forall|j: int| 0 <= j < k ==> !ends_url(#[trigger] s[j]),
        k == s.len() || ends_url(s[k]),
    ensures
        url_len(s) == k,
    decreases k,
{
    if k > 0 {
        assert(!ends_url(s[0]));
        assert forall|j: int| 0 <= j < k - 1 implies !ends_url(#[trigger] s.drop_first()[j]) by {
            assert(s.drop_first()[j] == s[j + 1]);
        }
        if k < s.len() {
            assert(s.drop_first()[k - 1] == s[k]);
        }
        lemma_url_len(s.drop_first(), k - 1);
    }
}

/// Returns the first URL in the text, if there is one.
pub fn extract_first_url(text: &str) -> (r: Option<String>)
    ensures
        opt_view(r) == first_url(text@),
{
    let t = chars_of(text);
    let http = chars_of("http://");
    let https = chars_of("https://");
    let start = match find(t.as_slice(), http.as_slice()) {
        Some(i) => i,
        None => match find(t.as_slice(), https.as_slice()) {
            Some(i) => i,
            None => return None,
        },
    };
    let ghost rest = t@.subrange(start as int, t@.len() as int);
    let mut end: usize = start;
    while end < t.len() && !(is_whitespace_char(t[end]) || t[end] == '"' || t[end] == '<' || t[end]
        == '>')
        invariant
            start <= end <= t@.len(),
            rest == t@.subrange(start as int, t@.len() as int),
            forall|j: int| 0 <= j < end - start ==> !ends_url(#[trigger] rest[j]),
        decreases t@.len() - end,
    {
        assert(rest[end - start] == t@[end as int]);
        end = end + 1;
    }
    proof {
        if end < t@.len() {
            assert(rest[end - start] == t@[end as int]);
        }
        lemma_url_len(rest, end - start);
        assert(rest.subrange(0, end - start) =~= t@.subrange(start as int, end as int));
    }
    let url = slice_of(t.as_slice(), start, end);
    Some(string_of(url.as_slice()))
}

// ---------------------------------------------------------------------------
// Pieces of the printed lines
// ---------------------------------------------------------------------------

/// `s` followed by spaces up to `width` characters.
pub open spec fn left_aligned(s: Seq<char>, width: int) -> Seq<char> {
    if s.len() >= width {
        s
    } else {
        s + Seq::new((width - s.len()) as nat, |i: int| ' ')
    }
}

/// Returns `s` left-aligned in a column of the given width.
pub fn align_left(s: &str, width: usize) -> (r: String)
    ensures
        r@ == left_aligned(s@, width as int),
{
    let mut out = String::new();
    push_str(&mut out, s);
    let n = s.unicode_len();
    let mut k: usize = n;
    while k < width
        invariant
            n == s@.len(),
            k >= n,
            width <= n ==> k == n,
            n < width ==> k <= width,
            out@ == s@ + Seq::new((k - n) as nat, |i: int| ' '),
        decreases width - k,
    {
        push_char(&mut out, ' ');
        assert(out@ =~= s@ + Seq::new((k + 1 - n) as nat, |i: int| ' '));
        k = k + 1;
    }
    proof {
        if n >= width {
            assert(k == n);
            assert(Seq::new((k - n) as nat, |i: int| ' ') =~= Seq::<char>::empty());
            assert(out@ =~= s@);
        } else {
            assert(k == width);
        }
    }
    out
}

/// The tree connector of a line followed by dashes that align the stream
/// column, and a space.
pub open spec fn branch_prefix_chars(connector: Seq<char>, stream: ReleaseStream) -> Seq<char> {
    let pad = if stream_label(stream).len() >= 5 {
        0
    } else {
        5 - stream_label(stream).len()
    };
    connector + Seq::new(pad as nat, |i: int| '─') + " "@
}

/// Returns the tree connector of a line followed by dashes that align the
/// stream column, and a space.
pub fn branch_prefix(connector: &str, stream: ReleaseStream) -> (r: String)
    ensures
        r@ == branch_prefix_chars(connector@, stream),
{
    let pad = stream_padding(stream);
    let mut out = String::new();
    push_str(&mut out, connector);
    let mut k: usize = 0;
    while k < pad
        invariant
            k <= pad,
            out@ == connector@ + Seq::new(k as nat, |i: int| '─'),
        decreases pad - k,
    {
        push_char(&mut out, '─');
        assert(out@ =~= connector@ + Seq::new((k + 1) as nat, |i: int| '─'));
        k = k + 1;
    }
    push_char(&mut out, ' ');
    proof {
        reveal_strlit(" ");
        assert(out@ =~= connector@ + Seq::new(pad as nat, |i: int| '─') + " "@);
    }
    out
}

/// The note on the version the release service suggests: its stream, as
/// the first release of that version has it, and the version.
pub open spec fn suggestion_chars(releases: Seq<ReleaseData>, suggested: Option<UnityVersion>) -> Seq<char> {
    match suggested {
        None => Seq::empty(),
        Some(v) => {
            let stream = if has_release(releases, v) {
                releases[choose|i: int| is_first_release(releases, v, i)].stream
            } else {
                ReleaseStream::Other
            };
            "(suggested: "@ + stream_label(stream) + " "@ + version_chars(v) + ")"@
        },
    }
}

/// Returns the note on the version the release service suggests, or an
/// empty string when it suggests none.
pub fn format_suggested_version(releases: &[ReleaseData], suggested: Option<UnityVersion>) -> (r: String)
    ensures
        r@ == suggestion_chars(releases@, suggested),
{
    match suggested {
        None => String::new(),
        Some(v) => {
            let stream = match position_of(releases, v) {
                Some(i) => {
                    proof {
                        let k = choose|k: int| is_first_release(releases@, v, k);
                        assert(is_first_release(releases@, v, i as int));
                        if k < i {
                            assert(releases@[k].version == v);
                        } else if k > i {
                            assert(releases@[i as int].version == v);
                        }
                        assert(k == i);
                    }
                    releases[i].stream
                },
                None => ReleaseStream::Other,
            };
            let mut out = String::new();
            push_str(&mut out, "(suggested: ");
            push_str(&mut out, stream.as_str());
            push_str(&mut out, " ");
            let vs = v.to_string();
            push_str(&mut out, vs.as_str());
            push_str(&mut out, ")");
            out
        },
    }
}

// ---------------------------------------------------------------------------
// Release dates
// ---------------------------------------------------------------------------

/// The calendar date, `YYYY-MM-DD` in UTC, of a time in seconds since the
/// Unix epoch, as chrono writes it; `None` for a time chrono cannot
/// represent.
pub uninterp spec fn utc_date_text(seconds: int) -> Option<Seq<char>>;

/// The first second of the year 0 and the last second of the year 9999, in
/// seconds since the Unix epoch: the times whose year `%Y` writes as four
/// digits without a sign.
pub open spec fn four_digit_years(seconds: int) -> bool {
    -62167219200 <= seconds <= 253402300799
}

/// `s` has the form `YYYY-MM-DD`: ten characters, digits but for the dashes
/// at positions 4 and 7.
pub open spec fn is_date_form(s: Seq<char>) -> bool {
    &&& s.len() == 10
    &&& s[4] == '-'
    &&& s[7] == '-'
    &&& forall|i: int| 0 <= i < 10 && i != 4 && i != 7 ==> is_digit(#[trigger] s[i])
}

/// The date of a time in seconds since the Unix epoch, by
/// `chrono::DateTime::<Utc>::from_timestamp(seconds, 0)` and the format
/// `%Y-%m-%d`. Which date it is, is given a name and not stated; for the
/// years 0 to 9999 chrono gives a date, with the year zero-padded to four
/// digits and month and day to two. `None` is what `from_timestamp` gives
/// for a time it cannot represent.
#[verifier::external_body]
fn utc_date(seconds: i64) -> (r: Option<String>)
    ensures
        opt_view(r) == utc_date_text(seconds as int),
        four_digit_years(seconds as int) ==> r is Some && is_date_form(r.unwrap()@),
{
    match chrono::DateTime::from_timestamp(seconds, 0) {
        Some(d) => Some(d.format("%Y-%m-%d").to_string()),
        None => None,
    }
}

/// The date of a release as the lists print it; a time that cannot be
/// represented shows as dashes.
pub open spec fn release_date_chars(seconds: int) -> Seq<char> {
    match utc_date_text(seconds) {
        Some(d) => d,
        None => "----------"@,
    }
}

/// Returns the date of a release as the lists print it.
pub fn format_release_date(seconds: i64) -> (r: String)
    ensures
        r@ == release_date_chars(seconds as int),
        four_digit_years(seconds as int) ==> is_date_form(r@),
{
    match utc_date(seconds) {
        Some(d) => d,
        None => "----------".to_string(),
    }
}

/// The line of the latest release of a series when none of the series is
/// installed: the tree prefix, the stream, the version aligned to the
/// column and the release date in brackets.
pub open spec fn latest_line_chars(connector: Seq<char>, rd: ReleaseData, width: int) -> Seq<char> {
    branch_prefix_chars(connector, rd.stream) + stream_label(rd.stream) + " "@ + left_aligned(
        version_chars(rd.version),
        width,
    ) + " ("@ + release_date_chars(rd.release_date as int) + ")"@
}

/// Returns the line of the latest release of a series when none of the
/// series is installed.
pub fn latest_release_line(connector: &str, rd: &ReleaseData, width: usize) -> (r: String)
    ensures
        r@ == latest_line_chars(connector@, *rd, width as int),
{
    let mut line = branch_prefix(connector, rd.stream);
    line.append(rd.stream.as_str());
    line.append(" ");
    let v = rd.version.to_string();
    let aligned = align_left(v.as_str(), width);
    line.append(aligned.as_str());
    line.append(" (");
    let date = format_release_date(rd.release_date);
    line.append(date.as_str());
    line.append(")");
    line
}

/// The text of a line of the updates list, after its tree prefix: the
/// stream and date of the entry's release, the version aligned to the
/// column, and the remark its status calls for.
pub open spec fn update_line_chars(info: VersionInfo, rd: ReleaseData, width: int, is_last_in_group: bool) -> Seq<
    char,
> {
    let head = stream_label(rd.stream) + " "@ + left_aligned(version_chars(info.version), width) + " ("@
        + release_date_chars(rd.release_date as int) + ")"@;
    match status_of(info.version_type, is_last_in_group) {
        UpdateStatus::Plain => head,
        UpdateStatus::UpToDate => head + " ✓ Up to date"@,
        UpdateStatus::UpdatesAvailable => head + " + Update(s) available"@,
        UpdateStatus::UpdateToLatest => head + " → "@ + notes_url_chars(info.version),
        UpdateStatus::NoReleaseInfo => head + " ? No "@ + short_str(info.version.build_type)
            + " update info available"@,
    }
}

/// Returns the text of a line of the updates list, after its tree prefix,
/// for the entry `info` whose release is `rd`.
pub fn update_line(info: &VersionInfo, rd: &ReleaseData, width: usize, is_last_in_group: bool) -> (r:
    String)
    ensures
        r@ == update_line_chars(*info, *rd, width as int, is_last_in_group),
{
    let mut line = String::new();
    push_str(&mut line, rd.stream.as_str());
    push_str(&mut line, " ");
    let v = info.version.to_string();
    let aligned = align_left(v.as_str(), width);
    push_str(&mut line, aligned.as_str());
    push_str(&mut line, " (");
    let date = format_release_date(rd.release_date);
    push_str(&mut line, date.as_str());
    push_str(&mut line, ")");
    match update_status(&info.version_type, is_last_in_group) {
        UpdateStatus::Plain => {},
        UpdateStatus::UpToDate => push_str(&mut line, " ✓ Up to date"),
        UpdateStatus::UpdatesAvailable => push_str(&mut line, " + Update(s) available"),
        UpdateStatus::UpdateToLatest => {
            push_str(&mut line, " → ");
            let url = release_notes_url(info.version);
            push_str(&mut line, url.0.as_str());
        },
        UpdateStatus::NoReleaseInfo => {
            push_str(&mut line, " ? No ");
            push_str(&mut line, info.version.build_type.as_short_str());
            push_str(&mut line, " update info available");
        },
    }
    line
}

} // verus!
