//! What the tool reads from a Unity project: its editor version, its
//! settings, its packages and its build profiles.

use crate::text::{
    chars_of, push_chars, push_str, slice_of, split_once_char, split_once_seq, starts_with,
    starts_with_seq, string_of, trim, trim_chars,
};
use crate::version::{parse_version, UnityVersion};
use vstd::prelude::*;

verus! {

// ---------------------------------------------------------------------------
// Packages
// ---------------------------------------------------------------------------

/// Where a package of a project comes from, in the order the tool lists them.
#[derive(Debug, PartialEq, Eq, Structural, PartialOrd, Ord, Clone, Copy)]
pub enum PackageSource {
    Local,
    Embedded,
    Git,
    LocalTarball,
    Registry,
    Builtin,
}

/// The position of a package source in the listing order.
pub open spec fn source_rank(s: PackageSource) -> int {
    match s {
        PackageSource::Local => 0,
        PackageSource::Embedded => 1,
        PackageSource::Git => 2,
        PackageSource::LocalTarball => 3,
        PackageSource::Registry => 4,
        PackageSource::Builtin => 5,
    }
}

/// The one-letter name of a package source.
pub open spec fn source_letter(s: PackageSource) -> Seq<char> {
    match s {
        PackageSource::Local => "L"@,
        PackageSource::Embedded => "E"@,
        PackageSource::Git => "G"@,
        PackageSource::LocalTarball => "T"@,
        PackageSource::Registry => "R"@,
        PackageSource::Builtin => "B"@,
    }
}

/// The package source that a name of the lock file stands for: the
/// lowercase name of the source, with `local-tarball` for a local tarball.
pub open spec fn source_named(name: Seq<char>) -> Option<PackageSource> {
    if name == "local"@ {
        Some(PackageSource::Local)
    } else if name == "embedded"@ {
        Some(PackageSource::Embedded)
    } else if name == "git"@ {
        Some(PackageSource::Git)
    } else if name == "local-tarball"@ {
        Some(PackageSource::LocalTarball)
    } else if name == "registry"@ {
        Some(PackageSource::Registry)
    } else if name == "builtin"@ {
        Some(PackageSource::Builtin)
    } else {
        None
    }
}

impl PackageSource {
    /// The source that a name of the lock file stands for; `None` for a
    /// name that is none of them.
    pub fn from_name(name: &str) -> (r: Option<PackageSource>)
        ensures
            r == source_named(name@),
    {
        let n = name.to_string();
        if n == "local".to_string() {
            Some(PackageSource::Local)
        } else if n == "embedded".to_string() {
            Some(PackageSource::Embedded)
        } else if n == "git".to_string() {
            Some(PackageSource::Git)
        } else if n == "local-tarball".to_string() {
            Some(PackageSource::LocalTarball)
        } else if n == "registry".to_string() {
            Some(PackageSource::Registry)
        } else if n == "builtin".to_string() {
            Some(PackageSource::Builtin)
        } else {
            None
        }
    }

    /// The one-letter name of the source.
    pub fn to_short_str(self) -> (r: &'static str)
        ensures
            r@ == source_letter(self),
    {
        match self {
            Self::Local => "L",
            Self::Embedded => "E",
            Self::Git => "G",
            Self::LocalTarball => "T",
            Self::Registry => "R",
            Self::Builtin => "B",
        }
    }

    /// The position of the source in the listing order.
    pub fn rank(self) -> (r: u8)
        ensures
            r == source_rank(self),
    {
        match self {
            Self::Local => 0,
            Self::Embedded => 1,
            Self::Git => 2,
            Self::LocalTarball => 3,
            Self::Registry => 4,
            Self::Builtin => 5,
        }
    }
}

/// A package as the lock file of a project records it.
pub struct PackageInfo {
    pub version: String,
    pub depth: u32,
    pub source: Option<PackageSource>,
    pub dependencies: Vec<(String, String)>,
    pub url: Option<String>,
}

/// The packages of a project, by name, in the order of their names.
pub struct Packages {
    pub dependencies: Vec<(String, PackageInfo)>,
}

/// The manifest of a project's packages.
pub struct Manifest {
    pub dependencies: Vec<(String, String)>,
    pub enable_lock_file: Option<bool>,
}

/// The lock file of a project's packages.
pub struct PackagesLock {
    pub dependencies: Vec<(String, String)>,
}

/// What is known of a project's packages.
pub enum PackagesAvailability {
    /// The project does not have a manifest file.
    NoManifest,
    /// The project has a manifest file but the lock file is disabled.
    LockFileDisabled,
    /// The project has a manifest file and the lock file is enabled.
    Packages(Packages),
    /// The project has no lock file.
    NoLockFile,
}

impl Packages {
    /// Decides what is known of the packages from the project's manifest, if
    /// it has one, and its lock file, if it has one: a manifest that disables
    /// the lock file leaves the packages unknown.
    pub fn availability(manifest: Option<&Manifest>, lock_file: Option<Packages>) -> (r:
        PackagesAvailability)
        ensures
            match manifest {
                None => r is NoManifest,
                Some(m) => if m.enable_lock_file == Some(false) {
                    r is LockFileDisabled
                } else {
                    match lock_file {
                        None => r is NoLockFile,
                        Some(p) => r == PackagesAvailability::Packages(p),
                    }
                },
            },
    {
        match manifest {
            None => PackagesAvailability::NoManifest,
            Some(m) => {
                if m.enable_lock_file == Some(false) {
                    PackagesAvailability::LockFileDisabled
                } else {
                    match lock_file {
                        None => PackagesAvailability::NoLockFile,
                        Some(p) => PackagesAvailability::Packages(p),
                    }
                }
            },
        }
    }
}

// ---------------------------------------------------------------------------
// Which packages are shown
// ---------------------------------------------------------------------------

/// How much of a project's packages the tool shows.
#[derive(Debug, Copy, Clone, PartialEq, Eq, Structural, PartialOrd, Ord)]
pub enum PackagesInfoLevel {
    /// Do not display any package information.
    NoPackages,
    /// Display information only for non-Unity packages (e.g., custom, third-party).
    ExcludingUnity,
    /// Display information for non-Unity and Unity registry packages.
    IncludingUnity,
    /// Display information for all packages, including built-in and dependencies.
    All,
}

/// The registry that Unity's own packages come from.
pub open spec fn unity_registry() -> Seq<char> {
    "https://packages.unity.com"@
}

/// The names of Unity's feature sets start with this.
pub open spec fn feature_prefix() -> Seq<char> {
    "com.unity.feature."@
}

/// A package of the given name is shown at the given level: excluding Unity's
/// packages, a direct dependency that is not from a registry, or from a
/// registry other than Unity's; including them, a direct dependency that is
/// not built in, or a feature set.
pub open spec fn package_shown(
    level: PackagesInfoLevel,
    name: Seq<char>,
    depth: u32,
    source: Option<PackageSource>,
    url: Option<Seq<char>>,
) -> bool {
    match level {
        PackagesInfoLevel::NoPackages => false,
        PackagesInfoLevel::ExcludingUnity => depth == 0 && match source {
            Some(ps) => source_rank(ps) < source_rank(PackageSource::Registry) || (ps
                == PackageSource::Registry && match url {
                Some(u) => u != unity_registry(),
                None => false,
            }),
            None => false,
        },
        PackagesInfoLevel::IncludingUnity => depth == 0 && match source {
            Some(ps) => source_rank(ps) < source_rank(PackageSource::Builtin) || starts_with_seq(
                name,
                feature_prefix(),
            ),
            None => false,
        },
        PackagesInfoLevel::All => true,
    }
}

/// The URL of a package as characters.
pub open spec fn url_view(p: PackageInfo) -> Option<Seq<char>> {
    match p.url {
        Some(u) => Some(u@),
        None => None,
    }
}

/// The display name of a level.
pub open spec fn level_name(l: PackagesInfoLevel) -> Seq<char> {
    match l {
        PackagesInfoLevel::NoPackages => "none"@,
        PackagesInfoLevel::ExcludingUnity => "no-unity"@,
        PackagesInfoLevel::IncludingUnity => "inc-unity"@,
        PackagesInfoLevel::All => "all"@,
    }
}

impl PackagesInfoLevel {
    /// Returns whether the package of the given name is shown at this level.
    pub fn is_allowed(self, name: &str, package: &PackageInfo) -> (r: bool)
        ensures
            r == package_shown(self, name@, package.depth, package.source, url_view(*package)),
    {
        match self {
            Self::NoPackages => false,
            Self::ExcludingUnity => {
                if package.depth != 0 {
                    return false;
                }
                match package.source {
                    None => false,
                    Some(ps) => {
                        if ps.rank() < PackageSource::Registry.rank() {
                            true
                        } else if ps == PackageSource::Registry {
                            match &package.url {
                                Some(u) => *u != "https://packages.unity.com".to_string(),
                                None => false,
                            }
                        } else {
                            false
                        }
                    },
                }
            },
            Self::IncludingUnity => {
                if package.depth != 0 {
                    return false;
                }
                match package.source {
                    None => false,
                    Some(ps) => {
                        if ps.rank() < PackageSource::Builtin.rank() {
                            true
                        } else {
                            let n = chars_of(name);
                            let f = chars_of("com.unity.feature.");
                            starts_with(n.as_slice(), f.as_slice())
                        }
                    },
                }
            },
            Self::All => true,
        }
    }

    /// Returns whether the package of the given name is shown at this level.
    pub fn evaluate(self, name: &str, package: &PackageInfo) -> (r: bool)
        ensures
            r == package_shown(self, name@, package.depth, package.source, url_view(*package)),
    {
        self.is_allowed(name, package)
    }

    /// The name of the level as the command line takes it.
    pub fn as_str(self) -> (r: &'static str)
        ensures
            r@ == level_name(self),
    {
        match self {
            Self::NoPackages => "none",
            Self::ExcludingUnity => "no-unity",
            Self::IncludingUnity => "inc-unity",
            Self::All => "all",
        }
    }
}

/// The listing key of a package: packages of unknown source come first, then
/// by source.
pub open spec fn package_key(p: PackageInfo) -> int {
    match p.source {
        None => 0,
        Some(s) => source_rank(s) + 1,
    }
}

/// The package at index `i` of `s` is shown at `level`.
pub open spec fn shown_at(s: Seq<(String, PackageInfo)>, level: PackagesInfoLevel, i: int) -> bool {
    package_shown(level, s[i].0@, s[i].1.depth, s[i].1.source, url_view(s[i].1))
}

/// The listing key of a package.
fn key_of(p: &PackageInfo) -> (r: u8)
    ensures
        r == package_key(*p),
{
    match p.source {
        None => 0,
        Some(s) => s.rank() + 1,
    }
}

/// Returns the indices of the packages that are shown at the given level,
/// ordered by source; packages of the same source keep their order.
pub fn shown_packages(packages: &Packages, level: PackagesInfoLevel) -> (r: Vec<usize>)
    ensures
        forall|k: int|
            0 <= k < r@.len() ==> (#[trigger] r@[k]) < packages.dependencies@.len() && shown_at(
                packages.dependencies@,
                level,
                r@[k] as int,
            ),
        forall|i: int|
            0 <= i < packages.dependencies@.len() && shown_at(packages.dependencies@, level, i)
                ==> r@.contains(i as usize),
        forall|j: int, k: int|
            0 <= j < k < r@.len() ==> r@[j] != r@[k] && (package_key(
                packages.dependencies@[r@[j] as int].1,
            ) < package_key(packages.dependencies@[r@[k] as int].1) || (package_key(
                packages.dependencies@[r@[j] as int].1,
            ) == package_key(packages.dependencies@[r@[k] as int].1) && r@[j] < r@[k])),
{
    let deps = &packages.dependencies;
    let n = deps.len();
    let mut out: Vec<usize> = Vec::new();
    let mut i: usize = 0;
    while i < n
        invariant
            n == deps@.len(),
            deps == &packages.dependencies,
            i <= n,
            forall|k: int| 0 <= k < out@.len() ==> (#[trigger] out@[k]) < i && shown_at(deps@, level, out@[k] as int),
            forall|l: int| 0 <= l < i && shown_at(deps@, level, l) ==> out@.contains(l as usize),
            forall|j: int, k: int|
                0 <= j < k < out@.len() ==> out@[j] != out@[k] && (package_key(
                    deps@[out@[j] as int].1,
                ) < package_key(deps@[out@[k] as int].1) || (package_key(deps@[out@[j] as int].1)
                    == package_key(deps@[out@[k] as int].1) && out@[j] < out@[k])),
        decreases n - i,
    {
        let (name, package) = &deps[i];
        if level.is_allowed(name.as_str(), package) {
            let key = key_of(package);
            let m = out.len();
            let mut pos: usize = m;
            while pos > 0 && key_of(&deps[out[pos - 1]].1) > key
                invariant
                    pos <= m,
                    m == out@.len(),
                    n == deps@.len(),
                    i < n,
                    forall|k: int| 0 <= k < out@.len() ==> (#[trigger] out@[k]) < i,
                    key == package_key(deps@[i as int].1),
                    forall|k: int| pos <= k < m ==> package_key(deps@[(#[trigger] out@[k]) as int].1) > key,
                decreases pos,
            {
                pos = pos - 1;
            }
            let ghost before = out@;
            out.insert(pos, i);
            proof {
                assert(out@ == before.insert(pos as int, i));
                assert forall|l: int| 0 <= l < i + 1 && shown_at(deps@, level, l) implies out@.contains(l as usize) by {
                    if l < i {
                        let k = choose|k: int| 0 <= k < before.len() && before[k] == l as usize;
                        if k < pos {
                            assert(out@[k] == l as usize);
                        } else {
                            assert(out@[k + 1] == l as usize);
                        }
                    } else {
                        assert(out@[pos as int] == i);
                    }
                }
                if pos > 0 {
                    assert(package_key(deps@[before[pos - 1] as int].1) <= key);
                }
            }
        } else {
            proof {
                assert(!shown_at(deps@, level, i as int));
            }
        }
        i = i + 1;
    }
    out
}

// ---------------------------------------------------------------------------
// Project settings
// ---------------------------------------------------------------------------

/// The product, company and version of a project.
pub struct ProjectSettings {
    pub product_name: String,
    pub company_name: String,
    pub bundle_version: String,
}

/// The value of `key` in a line `key: value`: the line is split at its first
/// colon, and the trimmed part before it must be the key. The value is the
/// trimmed part after it.
pub open spec fn line_value(key: Seq<char>, line: Seq<char>) -> Option<Seq<char>> {
    match split_once_seq(line, seq![':']) {
        Some((l, r)) => if trim(l) == key {
            Some(trim(r))
        } else {
            None
        },
        None => None,
    }
}

/// The value of `key` in the first line of `lines` that has one.
pub open spec fn first_value(key: Seq<char>, lines: Seq<Seq<char>>) -> Option<Seq<char>>
    decreases lines.len(),
{
    if lines.len() == 0 {
        None
    } else {
        match line_value(key, lines[0]) {
            Some(v) => Some(v),
            None => first_value(key, lines.drop_first()),
        }
    }
}

/// The lines as sequences of characters.
pub open spec fn lines_view(lines: Seq<String>) -> Seq<Seq<char>> {
    lines.map_values(|l: String| l@)
}

/// Why the settings of a project could not be read.
#[derive(Debug, PartialEq, Eq, Structural, Clone, Copy)]
pub enum SettingsError {
    /// One of the product name, the company name and the bundle version is
    /// missing.
    MissingValue,
}

impl ProjectSettings {
    /// Parses the given line as a key-value pair and returns the value if
    /// the key is the given one.
    pub fn try_parse_value(key: &str, line: &str) -> (r: Option<String>)
        ensures
            match r {
                Some(v) => line_value(key@, line@) == Some(v@),
                None => line_value(key@, line@) is None,
            },
    {
        let lc = chars_of(line);
        match split_once_char(lc.as_slice(), ':') {
            None => None,
            Some((l, r)) => {
                let lt = trim_chars(l.as_slice());
                let kt = key.to_string();
                let ls = string_of(lt.as_slice());
                if ls == kt {
                    let rt = trim_chars(r.as_slice());
                    Some(string_of(rt.as_slice()))
                } else {
                    None
                }
            },
        }
    }

    /// Reads the settings from the lines of `ProjectSettings.asset`: the
    /// first `productName`, `companyName` and `bundleVersion` values. A
    /// hand-rolled reading, as the file is not standard YAML.
    pub fn from_lines(lines: &[String]) -> (r: Result<Self, SettingsError>)
        ensures
            ({
                let ls = lines_view(lines@);
                let p = first_value("productName"@, ls);
                let c = first_value("companyName"@, ls);
                let b = first_value("bundleVersion"@, ls);
                match r {
                    Ok(s) => p == Some(s.product_name@) && c == Some(s.company_name@) && b == Some(
                        s.bundle_version@,
                    ),
                    Err(e) => (p is None || c is None || b is None) && e
                        == SettingsError::MissingValue,
                }
            }),
    {
        let ghost ls = lines_view(lines@);
        let mut product_name: Option<String> = None;
        let mut company_name: Option<String> = None;
        let mut bundle_version: Option<String> = None;
        let n = lines.len();
        let mut i: usize = 0;
        while i < n
            invariant
                n == lines@.len(),
                ls == lines_view(lines@),
                i <= n,
                opt_view(product_name) == first_value("productName"@, ls.subrange(0, i as int)),
                opt_view(company_name) == first_value("companyName"@, ls.subrange(0, i as int)),
                opt_view(bundle_version) == first_value(
                    "bundleVersion"@,
                    ls.subrange(0, i as int),
                ),
            ensures
                i == n || (product_name is Some && company_name is Some && bundle_version is Some),
                i <= n,
                opt_view(product_name) == first_value("productName"@, ls.subrange(0, i as int)),
                opt_view(company_name) == first_value("companyName"@, ls.subrange(0, i as int)),
                opt_view(bundle_version) == first_value(
                    "bundleVersion"@,
                    ls.subrange(0, i as int),
                ),
            decreases n - i,
        {
            let line = lines[i].as_str();
            proof {
                lemma_first_value_push("productName"@, ls.subrange(0, i as int), ls[i as int]);
                lemma_first_value_push("companyName"@, ls.subrange(0, i as int), ls[i as int]);
                lemma_first_value_push("bundleVersion"@, ls.subrange(0, i as int), ls[i as int]);
                assert(ls.subrange(0, i + 1) =~= ls.subrange(0, i as int).push(ls[i as int]));
            }
            if product_name.is_none() {
                product_name = Self::try_parse_value("productName", line);
            }
            if company_name.is_none() {
                company_name = Self::try_parse_value("companyName", line);
            }
            if bundle_version.is_none() {
                bundle_version = Self::try_parse_value("bundleVersion", line);
            }
            i = i + 1;
            if product_name.is_some() && company_name.is_some() && bundle_version.is_some() {
                break;
            }
        }
        proof {
            if i == n {
                assert(ls.subrange(0, n as int) =~= ls);
            } else {
                lemma_first_value_prefix("productName"@, ls, i as int);
                lemma_first_value_prefix("companyName"@, ls, i as int);
                lemma_first_value_prefix("bundleVersion"@, ls, i as int);
            }
        }
        match (product_name, company_name, bundle_version) {
            (Some(product_name), Some(company_name), Some(bundle_version)) => Ok(
                ProjectSettings { product_name, company_name, bundle_version },
            ),
            _ => Err(SettingsError::MissingValue),
        }
    }
}

/// An optional string as optional characters.
pub open spec fn opt_view(o: Option<String>) -> Option<Seq<char>> {
    match o {
        Some(s) => Some(s@),
        None => None,
    }
}

/// The first value in `lines` and one more line.
proof fn lemma_first_value_push(key: Seq<char>, lines: Seq<Seq<char>>, line: Seq<char>)
    ensures
        first_value(key, lines.push(line)) == match first_value(key, lines) {
            Some(v) => Some(v),
            None => line_value(key, line),
        },
    decreases lines.len(),
{
    if lines.len() > 0 {
        lemma_first_value_push(key, lines.drop_first(), line);
        assert(lines.push(line).drop_first() =~= lines.drop_first().push(line));
    } else {
        assert(lines.push(line).drop_first() =~= Seq::<Seq<char>>::empty());
        assert(lines.push(line)[0] == line);
        assert(first_value(key, Seq::<Seq<char>>::empty()) is None);
        assert(first_value(key, lines.push(line)) == match line_value(key, line) {
            Some(v) => Some(v),
            None => first_value(key, lines.push(line).drop_first()),
        });
    }
}

/// A value found in the first lines is the first value of all lines.
proof fn lemma_first_value_prefix(key: Seq<char>, lines: Seq<Seq<char>>, i: int)
    requires
        0 <= i <= lines.len(),
        first_value(key, lines.subrange(0, i)) is Some,
    ensures
        first_value(key, lines) == first_value(key, lines.subrange(0, i)),
    decreases i,
{
    if i > 0 {
        let t = lines.subrange(0, i);
        if line_value(key, lines[0]) is None {
            assert(t.drop_first() =~= lines.drop_first().subrange(0, i - 1));
            lemma_first_value_prefix(key, lines.drop_first(), i - 1);
        }
    }
}

// ---------------------------------------------------------------------------
// The project's editor version
// ---------------------------------------------------------------------------

/// The editor version that the first line of `ProjectVersion.txt` names,
/// e.g. `m_EditorVersion: 2021.3.9f1`.
pub open spec fn project_version_of(line: Seq<char>) -> Option<UnityVersion> {
    match line_value("m_EditorVersion"@, line) {
        Some(v) => parse_version(v),
        None => None,
    }
}

/// Returns the editor version that the first line of `ProjectVersion.txt`
/// names.
pub fn version_from_line(line: &str) -> (r: Option<UnityVersion>)
    ensures
        r == project_version_of(line@),
{
    match ProjectSettings::try_parse_value("m_EditorVersion", line) {
        None => None,
        Some(v) => match UnityVersion::parse(v.as_str()) {
            Ok(version) => Some(version),
            Err(_) => None,
        },
    }
}

// ---------------------------------------------------------------------------
// The project's directory
// ---------------------------------------------------------------------------

/// Why a directory is not a usable Unity project.
#[derive(Debug, PartialEq, Eq)]
pub enum ProjectError {
    /// The directory does not contain a Unity project.
    NoProject(String),
    /// The project does not have an `Assets` directory.
    NoAssetsDirectory(String),
    /// The editor version of the project could not be read.
    NoVersion(String),
}

/// A path to a directory that holds a Unity project.
pub struct ProjectPath(String);

impl ProjectPath {
    /// The path as characters.
    pub closed spec fn path(&self) -> Seq<char> {
        self.0@
    }

    /// Accepts the absolute path of a directory as a project's when the
    /// directory holds `ProjectSettings/ProjectVersion.txt`.
    pub fn try_from(path: String, has_version_file: bool) -> (r: Result<Self, ProjectError>)
        ensures
            has_version_file ==> (r matches Ok(p) && p.path() == path@),
            !has_version_file ==> (r matches Err(ProjectError::NoProject(s)) && s@ == path@),
    {
        if has_version_file {
            Ok(ProjectPath(path))
        } else {
            Err(ProjectError::NoProject(path))
        }
    }

    /// The path of the project.
    pub fn as_str(&self) -> (r: &str)
        ensures
            r@ == self.path(),
    {
        self.0.as_str()
    }

    /// Checks that the project has an `Assets` directory.
    pub fn ensure_assets_directory_exists(&self, assets_exists: bool) -> (r: Result<
        (),
        ProjectError,
    >)
        ensures
            assets_exists ==> r is Ok,
            !assets_exists ==> (r matches Err(ProjectError::NoAssetsDirectory(s)) && s@
                == self.path()),
    {
        if assets_exists {
            Ok(())
        } else {
            Err(ProjectError::NoAssetsDirectory(self.0.clone()))
        }
    }

    /// Reads the project's editor version from the first line of its
    /// `ProjectVersion.txt`.
    pub fn unity_version(&self, first_line: &str) -> (r: Result<UnityVersion, ProjectError>)
        ensures
            match project_version_of(first_line@) {
                Some(v) => r == Ok::<UnityVersion, ProjectError>(v),
                None => r matches Err(ProjectError::NoVersion(s)) && s@ == self.path(),
            },
    {
        match version_from_line(first_line) {
            Some(v) => Ok(v),
            None => Err(ProjectError::NoVersion(self.0.clone())),
        }
    }
}

/// Checks that a project directory has an `Assets` directory.
pub fn check_for_assets_directory(project_dir: &str, assets_exists: bool) -> (r: Result<
    (),
    ProjectError,
>)
    ensures
        assets_exists ==> r is Ok,
        !assets_exists ==> (r matches Err(ProjectError::NoAssetsDirectory(s)) && s@ == project_dir@),
{
    if assets_exists {
        Ok(())
    } else {
        Err(ProjectError::NoAssetsDirectory(project_dir.to_string()))
    }
}

// ---------------------------------------------------------------------------
// Build profiles
// ---------------------------------------------------------------------------

/// What a project has of build profiles.
pub enum BuildProfilesStatus {
    /// Unity version does not support build profiles.
    NotSupported,
    /// No build profiles found.
    NotFound,
    /// Build profiles found, as paths relative to the project.
    Available(Vec<String>),
}

/// Where build profiles are kept in a project.
pub open spec fn profiles_dir() -> Seq<char> {
    "Assets/Settings/Build Profiles"@
}

/// A file name with the extension `asset`.
pub open spec fn is_asset_file(name: Seq<char>) -> bool {
    name.len() > 6 && name.subrange(name.len() - 6, name.len() as int) == ".asset"@
}

/// Lowercase, as `str::to_lowercase` makes it.
pub uninterp spec fn lowercase(s: Seq<char>) -> Seq<char>;

/// The string in lowercase (`str::to_lowercase`), which the listing of build
/// profiles is ordered by. Nothing is stated of the characters it gives
/// beyond their being a function of the argument.
#[verifier::external_body]
fn to_lowercase(s: &str) -> (r: String)
    ensures
        r@ == lowercase(s@),
{
    s.to_lowercase()
}

/// `a` comes before `b` in the order of their characters' code points, as
/// strings compare.
pub open spec fn chars_lt(a: Seq<char>, b: Seq<char>) -> bool
    decreases a.len(),
{
    if a.len() == 0 {
        b.len() > 0
    } else if b.len() == 0 {
        false
    } else if a[0] != b[0] {
        a[0] < b[0]
    } else {
        chars_lt(a.drop_first(), b.drop_first())
    }
}

/// Compares two character sequences in code point order.
fn less_chars(a: &[char], b: &[char]) -> (r: bool)
    ensures
        r == chars_lt(a@, b@),
{
    let mut i: usize = 0;
    assert(a@.subrange(0, a@.len() as int) =~= a@);
    assert(b@.subrange(0, b@.len() as int) =~= b@);
    while i < a.len() && i < b.len() && a[i] == b[i]
        invariant
            i <= a@.len(),
            i <= b@.len(),
            chars_lt(a@, b@) == chars_lt(a@.subrange(i as int, a@.len() as int), b@.subrange(i as int, b@.len() as int)),
        decreases a@.len() - i,
    {
        let ghost x = a@.subrange(i as int, a@.len() as int);
        let ghost y = b@.subrange(i as int, b@.len() as int);
        assert(x.drop_first() =~= a@.subrange(i + 1, a@.len() as int));
        assert(y.drop_first() =~= b@.subrange(i + 1, b@.len() as int));
        i = i + 1;
    }
    let ghost x = a@.subrange(i as int, a@.len() as int);
    let ghost y = b@.subrange(i as int, b@.len() as int);
    if i == a.len() {
        i < b.len()
    } else if i == b.len() {
        false
    } else {
        assert(x[0] == a@[i as int] && y[0] == b@[i as int]);
        a[i] < b[i]
    }
}

/// `a` is not after `b` in code point order.
pub open spec fn chars_le(a: Seq<char>, b: Seq<char>) -> bool {
    !chars_lt(b, a)
}

/// Build profile paths, with their ordering keys, ordered by key.
pub open spec fn profiles_sorted(keys: Seq<Seq<char>>) -> bool {
    forall|i: int, j: int| 0 <= i < j < keys.len() ==> chars_le(#[trigger] keys[i], #[trigger] keys[j])
}

/// No sequence comes before itself.
proof fn lemma_lt_irrefl(a: Seq<char>)
    ensures
        !chars_lt(a, a),
    decreases a.len(),
{
    if a.len() > 0 {
        lemma_lt_irrefl(a.drop_first());
    }
}

/// Of two sequences at most one comes before the other.
proof fn lemma_lt_asym(a: Seq<char>, b: Seq<char>)
    ensures
        chars_lt(a, b) ==> !chars_lt(b, a),
    decreases a.len(),
{
    if a.len() > 0 && b.len() > 0 && a[0] == b[0] {
        lemma_lt_asym(a.drop_first(), b.drop_first());
    }
}

/// Of two distinct sequences one comes before the other.
proof fn lemma_lt_total(a: Seq<char>, b: Seq<char>)
    ensures
        a != b ==> chars_lt(a, b) || chars_lt(b, a),
    decreases a.len(),
{
    if a.len() > 0 && b.len() > 0 && a[0] == b[0] {
        lemma_lt_total(a.drop_first(), b.drop_first());
        if a != b {
            assert(a.drop_first() != b.drop_first()) by {
                if a.drop_first() == b.drop_first() {
                    assert(a =~= seq![a[0]] + a.drop_first());
                    assert(b =~= seq![b[0]] + b.drop_first());
                }
            }
        }
    } else if a.len() == 0 && b.len() == 0 {
        assert(a =~= b);
    }
}

/// Coming before is transitive.
proof fn lemma_lt_trans(a: Seq<char>, b: Seq<char>, c: Seq<char>)
    ensures
        chars_lt(a, b) && chars_lt(b, c) ==> chars_lt(a, c),
    decreases a.len(),
{
    if a.len() > 0 && b.len() > 0 && c.len() > 0 {
        lemma_lt_trans(a.drop_first(), b.drop_first(), c.drop_first());
    }
}

/// `chars_lt` is a strict total order.
proof fn lemma_chars_lt_order(a: Seq<char>, b: Seq<char>, c: Seq<char>)
    ensures
        !chars_lt(a, a),
        a != b ==> (chars_lt(a, b) || chars_lt(b, a)),
        chars_lt(a, b) ==> !chars_lt(b, a),
        chars_lt(a, b) && chars_lt(b, c) ==> chars_lt(a, c),
{
    lemma_lt_irrefl(a);
    lemma_lt_total(a, b);
    lemma_lt_asym(a, b);
    lemma_lt_trans(a, b, c);
}

/// Inserts a path with its key after every path whose key is not after it.
fn insert_profile(paths: &mut Vec<String>, keys: &mut Vec<String>, path: String, key: String)
    requires
        old(paths)@.len() == old(keys)@.len(),
        profiles_sorted(crate::command::strings_view(old(keys)@)),
        forall|i: int| 0 <= i < old(keys)@.len() ==> (#[trigger] old(keys)@[i])@ == lowercase(old(paths)@[i]@),
        key@ == lowercase(path@),
    ensures
        final(paths)@.len() == final(keys)@.len(),
        profiles_sorted(crate::command::strings_view(final(keys)@)),
        forall|i: int| 0 <= i < final(keys)@.len() ==> (#[trigger] final(keys)@[i])@ == lowercase(final(paths)@[i]@),
        crate::command::strings_view(final(paths)@).to_multiset() == crate::command::strings_view(
            old(paths)@,
        ).to_multiset().insert(path@),
{
    let n = keys.len();
    let kc = chars_of(key.as_str());
    let mut k: usize = 0;
    while k < n && !less_chars(kc.as_slice(), chars_of(keys[k].as_str()).as_slice())
        invariant
            n == keys@.len(),
            k <= n,
            kc@ == key@,
            forall|j: int| 0 <= j < k ==> chars_le(#[trigger] keys@[j]@, key@),
        decreases n - k,
    {
        k = k + 1;
    }
    let ghost ks = crate::command::strings_view(keys@);
    let ghost ps = paths@;
    proof {
        assert forall|j: int| k <= j < n implies chars_lt(key@, #[trigger] ks[j]) by {
            assert(ks[k as int] == keys@[k as int]@);
            lemma_chars_lt_order(key@, ks[k as int], ks[j]);
            if j > k {
                assert(chars_le(ks[k as int], ks[j]));
                lemma_chars_lt_order(ks[j], ks[k as int], key@);
                lemma_chars_lt_order(key@, ks[k as int], ks[j]);
            }
        }
    }
    let ghost kv = key@;
    paths.insert(k, path);
    keys.insert(k, key);
    proof {
        broadcast use vstd::seq_lib::group_to_multiset_ensures;

        let t = crate::command::strings_view(keys@);
        assert(t =~= ks.insert(k as int, kv));
        assert(crate::command::strings_view(paths@) =~= crate::command::strings_view(ps).insert(
            k as int,
            paths@[k as int]@,
        ));
        assert forall|i: int, j: int| 0 <= i < j < t.len() implies chars_le(#[trigger] t[i], #[trigger] t[j]) by {
            if j < k {
                assert(chars_le(ks[i], ks[j]));
            } else if j == k {
                assert(chars_le(keys@[i]@, kv));
            } else if i < k {
                assert(chars_le(ks[i], kv));
                assert(chars_lt(kv, ks[j - 1]));
                lemma_chars_lt_order(ks[j - 1], kv, ks[i]);
                lemma_chars_lt_order(ks[i], kv, ks[j - 1]);
            } else if i == k {
                assert(chars_lt(kv, ks[j - 1]));
                lemma_chars_lt_order(ks[j - 1], kv, kv);
            } else {
                assert(chars_le(ks[i - 1], ks[j - 1]));
            }
        }
        assert forall|i: int| 0 <= i < keys@.len() implies (#[trigger] keys@[i])@ == lowercase(paths@[i]@) by {
            if i < k {
                assert(keys@[i] == old(keys)@[i]);
            } else if i > k {
                assert(keys@[i] == old(keys)@[i - 1]);
            }
        }
    }
}

/// The path of a build profile file relative to the project.
pub open spec fn profile_path(name: Seq<char>, sep: char) -> Seq<char> {
    profiles_dir() + seq![sep] + name
}

/// The paths of the build profiles among the file names of the profiles
/// directory.
pub open spec fn profile_paths(files: Seq<Seq<char>>, sep: char) -> Seq<Seq<char>> {
    files.filter(|f: Seq<char>| is_asset_file(f)).map_values(|f: Seq<char>| profile_path(f, sep))
}

/// The file name has the extension `asset`.
fn asset_file(name: &[char]) -> (r: bool)
    ensures
        r == is_asset_file(name@),
{
    let ext = chars_of(".asset");
    proof {
        reveal_strlit(".asset");
    }
    let n = name.len();
    if n <= 6 {
        return false;
    }
    let tail = slice_of(name, n - 6, n);
    crate::version::same_chars(tail.as_slice(), ext.as_slice())
}

impl ProjectPath {
    /// Checks the project for build profiles, given the names of the files
    /// in its `Assets/Settings/Build Profiles` directory, if it has one.
    /// Build profiles come with Unity 6; they are the `.asset` files, listed
    /// as paths relative to the project, ordered by their lowercase form.
    pub fn build_profiles(
        &self,
        version: UnityVersion,
        profile_files: Option<Vec<String>>,
        sep: char,
    ) -> (r: BuildProfilesStatus)
        ensures
            version.major < 6000 ==> r is NotSupported,
            version.major >= 6000 ==> match profile_files {
                None => r is NotFound,
                Some(files) => {
                    let expected = profile_paths(crate::command::strings_view(files@), sep);
                    &&& expected.len() == 0 ==> r is NotFound
                    &&& expected.len() > 0 ==> (r matches BuildProfilesStatus::Available(v) && {
                        &&& crate::command::strings_view(v@).to_multiset() == expected.to_multiset()
                        &&& profiles_sorted(crate::command::strings_view(v@).map_values(
                            |p: Seq<char>| lowercase(p),
                        ))
                    })
                },
            },
    {
        if version.major < 6000 {
            return BuildProfilesStatus::NotSupported;
        }
        let files = match profile_files {
            None => return BuildProfilesStatus::NotFound,
            Some(f) => f,
        };
        let ghost fv = crate::command::strings_view(files@);
        let ghost pred = |f: Seq<char>| is_asset_file(f);
        let ghost mapf = |f: Seq<char>| profile_path(f, sep);
        let mut paths: Vec<String> = Vec::new();
        let mut keys: Vec<String> = Vec::new();
        let mut i: usize = 0;
        proof {
            broadcast use vstd::seq_lib::group_to_multiset_ensures;

            reveal(Seq::filter);
            assert(fv.subrange(0, 0).filter(pred) =~= Seq::<Seq<char>>::empty());
            assert(crate::command::strings_view(paths@) =~= Seq::<Seq<char>>::empty());
            assert(fv.subrange(0, 0).filter(pred).map_values(mapf) =~= Seq::<Seq<char>>::empty());
        }
        while i < files.len()
            invariant
                i <= files@.len(),
                fv == crate::command::strings_view(files@),
                pred == (|f: Seq<char>| is_asset_file(f)),
                mapf == (|f: Seq<char>| profile_path(f, sep)),
                paths@.len() == keys@.len(),
                profiles_sorted(crate::command::strings_view(keys@)),
                forall|j: int| 0 <= j < keys@.len() ==> (#[trigger] keys@[j])@ == lowercase(paths@[j]@),
                crate::command::strings_view(paths@).to_multiset() == fv.subrange(0, i as int).filter(
                    pred,
                ).map_values(mapf).to_multiset(),
            decreases files@.len() - i,
        {
            let name = chars_of(files[i].as_str());
            let ghost prev = fv.subrange(0, i as int);
            proof {
                assert(fv.subrange(0, i + 1) =~= prev.push(fv[i as int]));
                prev.lemma_filter_push(fv[i as int], pred);
                assert(fv[i as int] == name@);
            }
            if asset_file(name.as_slice()) {
                let mut path = String::new();
                push_str(&mut path, "Assets/Settings/Build Profiles");
                crate::text::push_char(&mut path, sep);
                push_chars(&mut path, name.as_slice());
                let key = to_lowercase(path.as_str());
                let ghost pv = path@;
                insert_profile(&mut paths, &mut keys, path, key);
                proof {
                    broadcast use vstd::seq_lib::group_to_multiset_ensures;

                    let f0 = prev.filter(pred);
                    assert(f0.push(name@).map_values(mapf) =~= f0.map_values(mapf).push(mapf(name@)));
                    assert(mapf(name@) == pv);
                }
            }
            i = i + 1;
        }
        proof {
            assert(fv.subrange(0, files@.len() as int) =~= fv);
            vstd::seq_lib::to_multiset_len(crate::command::strings_view(paths@));
            vstd::seq_lib::to_multiset_len(profile_paths(fv, sep));
            assert(crate::command::strings_view(keys@) =~= crate::command::strings_view(paths@).map_values(
                |p: Seq<char>| lowercase(p),
            ));
        }
        if paths.len() == 0 {
            BuildProfilesStatus::NotFound
        } else {
            BuildProfilesStatus::Available(paths)
        }
    }
}

// ---------------------------------------------------------------------------
// Setting up a command on a project
// ---------------------------------------------------------------------------

/// `b` appended to the path `a` after a separator, as `Path::join` does for
/// a relative `b`: no separator is added after an empty path or one that
/// already ends in one.
pub open spec fn joined(a: Seq<char>, b: Seq<char>, sep: char) -> Seq<char> {
    if a.len() == 0 {
        b
    } else if a.last() == sep {
        a + b
    } else {
        a + seq![sep] + b
    }
}

/// Appends the relative path `b` to the path `a`.
pub fn join_path(a: &str, b: &str, sep: char) -> (r: String)
    ensures
        r@ == joined(a@, b@, sep),
{
    let ac = chars_of(a);
    let mut s = String::new();
    push_chars(&mut s, ac.as_slice());
    let n = ac.len();
    if n > 0 && ac[n - 1] != sep {
        crate::text::push_char(&mut s, sep);
    }
    push_str(&mut s, b);
    s
}

/// The path of the editor executable of a version: the version's directory
/// in the editors' directory, then the executable's path in it.
pub open spec fn editor_exe_path(parent_dir: Seq<char>, version: UnityVersion, exe: Seq<char>, sep: char) -> Seq<char> {
    joined(joined(parent_dir, crate::version::version_chars(version), sep), exe, sep)
}

/// Returns the path of the editor executable of a version.
pub fn editor_executable_path(parent_dir: &str, version: UnityVersion, exe_sub_path: &str, sep: char) -> (r: String)
    ensures
        r@ == editor_exe_path(parent_dir@, version, exe_sub_path@, sep),
{
    let v = version.to_string();
    let dir = join_path(parent_dir, v.as_str(), sep);
    join_path(dir.as_str(), exe_sub_path, sep)
}

/// Why the editor of a version cannot be used.
#[derive(Debug, PartialEq, Eq, Structural, Clone, Copy)]
pub enum EditorError {
    /// The version's editor is not installed.
    NotInstalled(UnityVersion),
}

/// Returns the path of the editor executable of an installed version.
/// `exe_exists` says whether the file at `editor_executable_path` of the same
/// arguments exists; where it does not, the version is not installed.
pub fn installed_editor_executable(
    parent_dir: &str,
    version: UnityVersion,
    exe_sub_path: &str,
    sep: char,
    exe_exists: bool,
) -> (r: Result<String, EditorError>)
    ensures
        exe_exists ==> (r matches Ok(p) && p@ == editor_exe_path(parent_dir@, version, exe_sub_path@, sep)),
        !exe_exists ==> r == Err::<String, EditorError>(EditorError::NotInstalled(version)),
{
    if exe_exists {
        Ok(editor_executable_path(parent_dir, version, exe_sub_path, sep))
    } else {
        Err(EditorError::NotInstalled(version))
    }
}

/// A project together with the editor version it uses.
pub struct ProjectSetup {
    pub project: ProjectPath,
    pub unity_version: UnityVersion,
}

impl ProjectSetup {
    /// Sets up a command on the project, whose `ProjectVersion.txt` begins
    /// with the given line.
    pub fn new(project: ProjectPath, version_line: &str) -> (r: Result<Self, ProjectError>)
        ensures
            match project_version_of(version_line@) {
                Some(v) => r matches Ok(s) && s.unity_version == v && s.project.path() == project.path(),
                None => r matches Err(ProjectError::NoVersion(p)) && p@ == project.path(),
            },
    {
        match project.unity_version(version_line) {
            Ok(unity_version) => Ok(ProjectSetup { project, unity_version }),
            Err(e) => Err(e),
        }
    }

    /// The path of the editor executable for the project's version.
    pub fn editor_executable(&self, parent_dir: &str, exe_sub_path: &str, sep: char) -> (r: String)
        ensures
            r@ == editor_exe_path(parent_dir@, self.unity_version, exe_sub_path@, sep),
    {
        editor_executable_path(parent_dir, self.unity_version, exe_sub_path, sep)
    }
}

/// The player settings of a project.
pub struct PlayerSettings {
    pub product_name: String,
    pub company_name: String,
    pub bundle_version: String,
    pub build_number: Option<Vec<(String, String)>>,
    pub android_bundle_version_code: Option<String>,
}

/// Why a path is not a usable project directory.
#[derive(Debug, PartialEq, Eq)]
pub enum PathError {
    /// On Windows a path cannot start with `~`.
    HomeOnWindows(String),
    /// The path does not exist.
    Missing(String),
    /// The path is not a directory.
    NotADirectory(String),
}

/// The first component of the path is `~`.
pub open spec fn starts_at_home(p: Seq<char>) -> bool {
    p == seq!['~'] || starts_with_seq(p, seq!['~', '/']) || starts_with_seq(p, seq!['~', '\\'])
}

/// Checks a project directory and returns it as an absolute path: on
/// Windows it cannot start with `~`, and it must exist and be a directory.
/// A path with a root is returned as it is; any other is returned as
/// `absolute`, the path made absolute against the current directory.
/// `has_root` says whether the platform's path rules see a root in `path`.
pub fn validate_project_path(
    path: &str,
    on_windows: bool,
    exists: bool,
    is_dir: bool,
    has_root: bool,
    absolute: &str,
) -> (r: Result<String, PathError>)
    ensures
        on_windows && starts_at_home(path@) ==> (r matches Err(PathError::HomeOnWindows(p)) && p@ == path@),
        !(on_windows && starts_at_home(path@)) && !exists ==> (r matches Err(PathError::Missing(p)) && p@ == path@),
        !(on_windows && starts_at_home(path@)) && exists && !is_dir ==> (r matches Err(PathError::NotADirectory(p)) && p@ == path@),
        !(on_windows && starts_at_home(path@)) && exists && is_dir ==> (r matches Ok(p) && p@ == (if has_root {
            path@
        } else {
            absolute@
        })),
{
    let pc = chars_of(path);
    let home = vec!['~'];
    let home_slash = vec!['~', '/'];
    let home_backslash = vec!['~', '\\'];
    assert(home@ =~= seq!['~']);
    assert(home_slash@ =~= seq!['~', '/']);
    assert(home_backslash@ =~= seq!['~', '\\']);
    let at_home = crate::version::same_chars(pc.as_slice(), home.as_slice()) || starts_with(pc.as_slice(), home_slash.as_slice())
        || starts_with(pc.as_slice(), home_backslash.as_slice());
    if on_windows && at_home {
        return Err(PathError::HomeOnWindows(path.to_string()));
    }
    if !exists {
        return Err(PathError::Missing(path.to_string()));
    }
    if !is_dir {
        return Err(PathError::NotADirectory(path.to_string()));
    }
    if has_root {
        Ok(path.to_string())
    } else {
        Ok(absolute.to_string())
    }
}

/// The package levels are nested: nothing is shown at the lowest, what is
/// shown without Unity's packages is shown with them, and everything is
/// shown at the highest.
pub proof fn law_levels_nested(name: Seq<char>, depth: u32, source: Option<PackageSource>, url: Option<Seq<char>>)
    ensures
        !package_shown(PackagesInfoLevel::NoPackages, name, depth, source, url),
        package_shown(PackagesInfoLevel::ExcludingUnity, name, depth, source, url) ==> package_shown(
            PackagesInfoLevel::IncludingUnity,
            name,
            depth,
            source,
            url,
        ),
        package_shown(PackagesInfoLevel::All, name, depth, source, url),
{
}

} // verus!
