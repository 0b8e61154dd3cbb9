//! Unity version numbers such as `2021.3.9f1`: `major.minor.patch`, a build
//! type (`a`lpha, `b`eta, `rc` or `f`inal) and a build number.

use crate::text::{
    all_digits, chars_of, contains, contains_char, contains_seq, decimal, first_piece,
    is_digit, lemma_decimal, lemma_decimal_len_le, pow10, lemma_first_occurrence_is, lemma_parse_decimal, occurs_at,
    parse_unsigned, parse_unsigned_chars, push_char, push_chars, push_decimal, rest_after,
    split_once, split_once_char, split_once_seq,
};
use vstd::prelude::*;

verus! {

/// The error for a string that is not a Unity version.
#[derive(Debug, PartialEq, Eq, Clone, Copy)]
pub struct ParseError;

/// The build type of a Unity release, ordered from the least to the most
/// stable.
#[derive(Debug, PartialEq, Eq, Structural, PartialOrd, Ord, Clone, Copy, Hash)]
pub enum BuildType {
    Alpha,
    Beta,
    ReleaseCandidate,
    Final,
}

pub type MajorVersion = u16;

pub type MinorVersion = u8;

pub type PatchVersion = u8;

pub type BuildNumber = u8;

/// The Unity version separated into its components.
#[derive(Debug, PartialEq, Eq, Structural, PartialOrd, Ord, Clone, Copy, Hash)]
pub struct UnityVersion {
    pub major: MajorVersion,
    pub minor: MinorVersion,
    pub patch: PatchVersion,
    pub build_type: BuildType,
    pub build: BuildNumber,
}

// ---------------------------------------------------------------------------
// Specification
// ---------------------------------------------------------------------------

/// The short name of a build type, as it stands in a version string.
pub open spec fn short_str(bt: BuildType) -> Seq<char> {
    match bt {
        BuildType::Alpha => seq!['a'],
        BuildType::Beta => seq!['b'],
        BuildType::ReleaseCandidate => seq!['r', 'c'],
        BuildType::Final => seq!['f'],
    }
}

/// The build type that a build part such as `14f1` names: the first of
/// `f`, `b`, `a` and `rc` that occurs anywhere in it.
pub open spec fn build_type_in(s: Seq<char>) -> Option<BuildType> {
    if s.contains('f') {
        Some(BuildType::Final)
    } else if s.contains('b') {
        Some(BuildType::Beta)
    } else if s.contains('a') {
        Some(BuildType::Alpha)
    } else if contains_seq(s, seq!['r', 'c']) {
        Some(BuildType::ReleaseCandidate)
    } else {
        None
    }
}

/// The rank of a build type in the order `a < b < rc < f`.
pub open spec fn build_type_rank(bt: BuildType) -> int {
    match bt {
        BuildType::Alpha => 0,
        BuildType::Beta => 1,
        BuildType::ReleaseCandidate => 2,
        BuildType::Final => 3,
    }
}

/// The string form of a version: `major.minor.patch`, the build type's short
/// name and the build number, e.g. `2022.2.1rc2`.
pub open spec fn version_chars(v: UnityVersion) -> Seq<char> {
    decimal(v.major as nat) + seq!['.'] + decimal(v.minor as nat) + seq!['.'] + decimal(
        v.patch as nat,
    ) + short_str(v.build_type) + decimal(v.build as nat)
}

/// The `major.minor` part of a version, e.g. `2021.3`.
pub open spec fn minor_partial_chars(v: UnityVersion) -> Seq<char> {
    decimal(v.major as nat) + seq!['.'] + decimal(v.minor as nat)
}

/// The length of the string form, counted part by part: the digits of each
/// number, the build type's short name and the two dots.
pub open spec fn version_len(v: UnityVersion) -> int {
    decimal(v.major as nat).len() + decimal(v.minor as nat).len() + decimal(v.patch as nat).len()
        + short_str(v.build_type).len() + decimal(v.build as nat).len() + 2int
}

/// The version a string names, if any. The string is split at `.`: the
/// first piece is the major number, the second the minor number, and the
/// third (what follows it is ignored) the build part. The build type is
/// looked up in the build part, which is then split at the first occurrence
/// of the build type's short name into the patch and the build number. Each
/// number is read as the standard library reads an unsigned integer of its
/// width.
#[verifier::opaque]
pub open spec fn parse_version(s: Seq<char>) -> Option<UnityVersion> {
    match rest_after(s, '.') {
        None => None,
        Some(r1) => match rest_after(r1, '.') {
            None => None,
            Some(r2) => {
                let build_part = first_piece(r2, '.');
                match (
                    parse_unsigned(first_piece(s, '.'), 65535),
                    parse_unsigned(first_piece(r1, '.'), 255),
                    build_type_in(build_part),
                ) {
                    (Some(major), Some(minor), Some(bt)) => match split_once_seq(
                        build_part,
                        short_str(bt),
                    ) {
                        Some((l, r)) => match (parse_unsigned(l, 255), parse_unsigned(r, 255)) {
                            (Some(patch), Some(build)) => Some(
                                UnityVersion {
                                    major: major as u16,
                                    minor: minor as u8,
                                    patch: patch as u8,
                                    build_type: bt,
                                    build: build as u8,
                                },
                            ),
                            _ => None,
                        },
                        None => None,
                    },
                    _ => None,
                }
            },
        },
    }
}

/// `a` comes strictly before `b`: the versions are ordered by major, minor
/// and patch number, then build type, then build number.
pub open spec fn version_lt(a: UnityVersion, b: UnityVersion) -> bool {
    ||| a.major < b.major
    ||| (a.major == b.major && a.minor < b.minor)
    ||| (a.major == b.major && a.minor == b.minor && a.patch < b.patch)
    ||| (a.major == b.major && a.minor == b.minor && a.patch == b.patch && build_type_rank(
        a.build_type,
    ) < build_type_rank(b.build_type))
    ||| (a.major == b.major && a.minor == b.minor && a.patch == b.patch && a.build_type
        == b.build_type && a.build < b.build)
}

/// `a` comes before `b` or is `b`.
pub open spec fn version_le(a: UnityVersion, b: UnityVersion) -> bool {
    version_lt(a, b) || a == b
}

// ---------------------------------------------------------------------------
// Build types
// ---------------------------------------------------------------------------

impl BuildType {
    /// Returns the short name of the build type.
    pub fn as_short_str(&self) -> (r: &'static str)
        ensures
            r@ == short_str(*self),
    {
        match self {
            Self::Alpha => {
                let r = "a";
                proof {
                    reveal_strlit("a");
                }
                r
            },
            Self::Beta => {
                let r = "b";
                proof {
                    reveal_strlit("b");
                }
                r
            },
            Self::ReleaseCandidate => {
                let r = "rc";
                proof {
                    reveal_strlit("rc");
                }
                r
            },
            Self::Final => {
                let r = "f";
                proof {
                    reveal_strlit("f");
                }
                r
            },
        }
    }

    /// Returns the full name of the build type.
    pub fn as_full_str(&self) -> (r: &'static str)
        ensures
            r@ == match *self {
                BuildType::Alpha => "Alpha"@,
                BuildType::Beta => "Beta"@,
                BuildType::ReleaseCandidate => "ReleaseCandidate"@,
                BuildType::Final => "Final"@,
            },
    {
        match self {
            Self::Alpha => "Alpha",
            Self::Beta => "Beta",
            Self::ReleaseCandidate => "ReleaseCandidate",
            Self::Final => "Final",
        }
    }

    /// Returns the build type that the given build part names.
    pub fn from(s: &str) -> (r: Option<Self>)
        ensures
            r == build_type_in(s@),
    {
        let cs = chars_of(s);
        Self::from_chars(cs.as_slice())
    }

    /// Returns the build type that the given characters name.
    pub fn from_chars(s: &[char]) -> (r: Option<Self>)
        ensures
            r == build_type_in(s@),
    {
        if contains_char(s, 'f') {
            Some(Self::Final)
        } else if contains_char(s, 'b') {
            Some(Self::Beta)
        } else if contains_char(s, 'a') {
            Some(Self::Alpha)
        } else {
            let rc = vec!['r', 'c'];
            assert(rc@ =~= seq!['r', 'c']);
            if contains(s, rc.as_slice()) {
                Some(Self::ReleaseCandidate)
            } else {
                None
            }
        }
    }

    /// The short name of the build type as characters.
    pub fn short_chars(&self) -> (r: Vec<char>)
        ensures
            r@ == short_str(*self),
    {
        let r = match self {
            Self::Alpha => vec!['a'],
            Self::Beta => vec!['b'],
            Self::ReleaseCandidate => vec!['r', 'c'],
            Self::Final => vec!['f'],
        };
        assert(r@ =~= short_str(*self));
        r
    }

    /// The position of the build type in the order `a < b < rc < f`.
    pub fn rank(&self) -> (r: u8)
        ensures
            r == build_type_rank(*self),
    {
        match self {
            Self::Alpha => 0,
            Self::Beta => 1,
            Self::ReleaseCandidate => 2,
            Self::Final => 3,
        }
    }
}

// ---------------------------------------------------------------------------
// Versions
// ---------------------------------------------------------------------------

impl UnityVersion {
    /// Parses a version string such as `2021.2.14f1`.
    pub fn parse(s: &str) -> (r: Result<Self, ParseError>)
        ensures
            match r {
                Ok(v) => parse_version(s@) == Some(v),
                Err(e) => parse_version(s@) is None && e == ParseError,
            },
    {
        let cs = chars_of(s);
        Self::parse_chars(cs.as_slice())
    }

    /// Parses a version from its characters.
    pub fn parse_chars(s: &[char]) -> (r: Result<Self, ParseError>)
        ensures
            match r {
                Ok(v) => parse_version(s@) == Some(v),
                Err(e) => parse_version(s@) is None && e == ParseError,
            },
    {
        reveal(parse_version);
        let (p0, r1) = match split_once_char(s, '.') {
            Some(parts) => parts,
            None => return Err(ParseError),
        };
        let (p1, r2) = match split_once_char(r1.as_slice(), '.') {
            Some(parts) => parts,
            None => return Err(ParseError),
        };
        let build_part = match split_once_char(r2.as_slice(), '.') {
            Some((b, _)) => b,
            None => r2,
        };
        let major = match parse_unsigned_chars(p0.as_slice(), 65535) {
            Some(v) => v,
            None => return Err(ParseError),
        };
        let minor = match parse_unsigned_chars(p1.as_slice(), 255) {
            Some(v) => v,
            None => return Err(ParseError),
        };
        let build_type = match BuildType::from_chars(build_part.as_slice()) {
            Some(bt) => bt,
            None => return Err(ParseError),
        };
        let short = build_type.short_chars();
        let (l, r) = match split_once(build_part.as_slice(), short.as_slice()) {
            Some(parts) => parts,
            None => return Err(ParseError),
        };
        let patch = match parse_unsigned_chars(l.as_slice(), 255) {
            Some(v) => v,
            None => return Err(ParseError),
        };
        let build = match parse_unsigned_chars(r.as_slice(), 255) {
            Some(v) => v,
            None => return Err(ParseError),
        };
        Ok(
            UnityVersion {
                major: major as u16,
                minor: minor as u8,
                patch: patch as u8,
                build_type,
                build: build as u8,
            },
        )
    }

    /// Returns the string form of this version, e.g. `2021.2.14f1`.
    pub fn to_string(&self) -> (r: String)
        ensures
            r@ == version_chars(*self),
    {
        let mut s = String::new();
        push_decimal(&mut s, self.major as u64);
        push_char(&mut s, '.');
        push_decimal(&mut s, self.minor as u64);
        push_char(&mut s, '.');
        push_decimal(&mut s, self.patch as u64);
        let short = self.build_type.short_chars();
        push_chars(&mut s, short.as_slice());
        push_decimal(&mut s, self.build as u64);
        assert(s@ =~= version_chars(*self));
        s
    }

    /// Returns the length of the string representation of this version.
    pub fn len(self) -> (r: usize)
        ensures
            r == version_len(self),
    {
        let short = self.build_type.short_chars();
        Self::count_len(self.major) + Self::count_len(self.minor as u16) + Self::count_len(
            self.patch as u16,
        ) + short.len() + Self::count_len(self.build as u16) + 2  // The 2 dots

    }

    /// The number of decimal digits of `n`.
    fn count_len(n: u16) -> (r: usize)
        ensures
            r == decimal(n as nat).len(),
            1 <= r <= 5,
    {
        let mut m: u16 = n;
        let mut count: usize = 0;
        proof {
            lemma_decimal_len_u16(n as nat);
        }
        loop
            invariant
                count + decimal(m as nat).len() == decimal(n as nat).len(),
                decimal(n as nat).len() <= 5,
            decreases m,
        {
            count = count + 1;
            if m < 10 {
                assert(decimal(m as nat).len() == 1);
                return count;
            }
            assert(decimal(m as nat).len() == decimal((m / 10) as nat).len() + 1);
            m = m / 10;
        }
    }

    /// Returns the major.minor part of this version.
    pub fn minor_partial(self) -> (r: String)
        ensures
            r@ == minor_partial_chars(self),
    {
        let mut s = String::new();
        push_decimal(&mut s, self.major as u64);
        push_char(&mut s, '.');
        push_decimal(&mut s, self.minor as u64);
        assert(s@ =~= minor_partial_chars(self));
        s
    }

    /// This version comes strictly before `other`.
    pub fn is_older_than(&self, other: &Self) -> (r: bool)
        ensures
            r == version_lt(*self, *other),
    {
        if self.major != other.major {
            self.major < other.major
        } else if self.minor != other.minor {
            self.minor < other.minor
        } else if self.patch != other.patch {
            self.patch < other.patch
        } else if self.build_type != other.build_type {
            self.build_type.rank() < other.build_type.rank()
        } else {
            self.build < other.build
        }
    }

    /// This version and `other` have the same major and minor number.
    pub fn same_minor(&self, other: &Self) -> (r: bool)
        ensures
            r == (self.major == other.major && self.minor == other.minor),
    {
        self.major == other.major && self.minor == other.minor
    }
}

/// The error for a string that is not the short name of a build type.
#[derive(Debug, PartialEq, Eq, Clone, Copy)]
pub struct BuildTypeParseError;

/// The build type whose short name is exactly `s`.
pub open spec fn build_type_named(s: Seq<char>) -> Option<BuildType> {
    if s == seq!['a'] {
        Some(BuildType::Alpha)
    } else if s == seq!['b'] {
        Some(BuildType::Beta)
    } else if s == seq!['r', 'c'] {
        Some(BuildType::ReleaseCandidate)
    } else if s == seq!['f'] {
        Some(BuildType::Final)
    } else {
        None
    }
}

impl BuildType {
    /// Returns the short name of the build type.
    pub fn as_str(&self) -> (r: &'static str)
        ensures
            r@ == short_str(*self),
    {
        self.as_short_str()
    }

    /// Returns the build type that the given string names: the first of
    /// `f`, `b`, `a` and `rc` that occurs anywhere in it.
    pub fn find_in(s: &str) -> (r: Option<Self>)
        ensures
            r == build_type_in(s@),
    {
        Self::from(s)
    }

    /// Returns the build type whose short name is exactly the given string.
    pub fn from_short_str(s: &str) -> (r: Result<Self, BuildTypeParseError>)
        ensures
            match build_type_named(s@) {
                Some(bt) => r == Ok::<BuildType, BuildTypeParseError>(bt),
                None => r is Err,
            },
    {
        let cs = chars_of(s);
        let a = vec!['a'];
        let b = vec!['b'];
        let rc = vec!['r', 'c'];
        let f = vec!['f'];
        assert(a@ =~= seq!['a']);
        assert(b@ =~= seq!['b']);
        assert(rc@ =~= seq!['r', 'c']);
        assert(f@ =~= seq!['f']);
        if same_chars(cs.as_slice(), a.as_slice()) {
            Ok(BuildType::Alpha)
        } else if same_chars(cs.as_slice(), b.as_slice()) {
            Ok(BuildType::Beta)
        } else if same_chars(cs.as_slice(), rc.as_slice()) {
            Ok(BuildType::ReleaseCandidate)
        } else if same_chars(cs.as_slice(), f.as_slice()) {
            Ok(BuildType::Final)
        } else {
            Err(BuildTypeParseError)
        }
    }
}

/// The short name of a build type names it, whether it is read as exactly
/// a short name or looked up in a build part.
pub proof fn law_build_type_name_roundtrip(bt: BuildType)
    ensures
        build_type_named(short_str(bt)) == Some(bt),
        build_type_in(short_str(bt)) == Some(bt),
{
    match bt {
        BuildType::ReleaseCandidate => {
            assert(short_str(bt)[0] == 'r' && short_str(bt)[1] == 'c');
            assert(!short_str(bt).contains('f'));
            assert(!short_str(bt).contains('b'));
            assert(!short_str(bt).contains('a'));
            assert(short_str(bt).subrange(0, 2) =~= seq!['r', 'c']);
            assert(occurs_at(short_str(bt), seq!['r', 'c'], 0));
        },
        BuildType::Alpha => {
            assert(short_str(bt)[0] == 'a');
            assert(!short_str(bt).contains('f'));
            assert(!short_str(bt).contains('b'));
        },
        BuildType::Beta => {
            assert(short_str(bt)[0] == 'b');
            assert(!short_str(bt).contains('f'));
        },
        BuildType::Final => {
            assert(short_str(bt)[0] == 'f');
        },
    }
}

/// The two character sequences are equal.
pub fn same_chars(a: &[char], b: &[char]) -> (r: bool)
    ensures
        r == (a@ == b@),
{
    if a.len() != b.len() {
        return false;
    }
    let mut i: usize = 0;
    while i < a.len()
        invariant
            a@.len() == b@.len(),
            i <= a@.len(),
            forall|j: int| 0 <= j < i ==> a@[j] == b@[j],
        decreases a@.len() - i,
    {
        if a[i] != b[i] {
            return false;
        }
        i = i + 1;
    }
    assert(a@ =~= b@);
    true
}

impl core::str::FromStr for UnityVersion {
    type Err = ParseError;

    fn from_str(s: &str) -> (r: Result<Self, Self::Err>)
        ensures
            match r {
                Ok(v) => parse_version(s@) == Some(v),
                Err(e) => parse_version(s@) is None && e == ParseError,
            },
    {
        Self::parse(s)
    }
}

/// A number below 65536 has at most five digits.
proof fn lemma_decimal_len_u16(n: nat)
    requires
        n <= 65535,
    ensures
        decimal(n).len() <= 5,
{
    assert(pow10(5) == 100000nat) by {
        reveal_with_fuel(pow10, 6);
    }
    lemma_decimal_len_le(n, 5);
}

// ---------------------------------------------------------------------------
// Laws
// ---------------------------------------------------------------------------

/// Splitting `x + sep + y` at the first `sep` gives back `x` and `y` when no
/// character of `x` starts `sep`.
proof fn lemma_split_at(x: Seq<char>, sep: Seq<char>, y: Seq<char>)
    requires
        sep.len() >= 1,
        forall|i: int| 0 <= i < x.len() ==> x[i] != sep[0],
    ensures
        split_once_seq(x + sep + y, sep) == Some((x, y)),
{
    let s = x + sep + y;
    assert(s.subrange(x.len() as int, (x.len() + sep.len()) as int) =~= sep);
    assert forall|j: int| 0 <= j < x.len() implies !occurs_at(s, sep, j) by {
        if occurs_at(s, sep, j) {
            assert(s.subrange(j, j + sep.len())[0] == s[j]);
        }
    }
    lemma_first_occurrence_is(s, sep, x.len() as int);
    assert(s.subrange(0, x.len() as int) =~= x);
    assert(s.subrange((x.len() + sep.len()) as int, s.len() as int) =~= y);
}

/// A sequence with no character that starts `sep` cannot be split at `sep`.
proof fn lemma_no_split(x: Seq<char>, sep: Seq<char>)
    requires
        sep.len() >= 1,
        forall|i: int| 0 <= i < x.len() ==> x[i] != sep[0],
    ensures
        split_once_seq(x, sep) is None,
        !contains_seq(x, sep),
{
    assert forall|j: int| !occurs_at(x, sep, j) by {
        if occurs_at(x, sep, j) {
            assert(x.subrange(j, j + sep.len())[0] == x[j]);
        }
    }
}

/// The build part `patch + short + build` names its build type.
proof fn lemma_build_type_in(p: nat, bt: BuildType, b: nat)
    ensures
        build_type_in(decimal(p) + short_str(bt) + decimal(b)) == Some(bt),
{
    let s = decimal(p) + short_str(bt) + decimal(b);
    lemma_decimal(p);
    lemma_decimal(b);
    let dp = decimal(p);
    let db = decimal(b);
    assert forall|c: char, i: int|
        !is_digit(c) && 0 <= i < s.len() && s[i] == c implies dp.len() <= i < dp.len() + short_str(
        bt,
    ).len() by {
        if i < dp.len() {
            assert(s[i] == dp[i]);
        } else if i >= dp.len() + short_str(bt).len() {
            assert(s[i] == db[i - dp.len() - short_str(bt).len()]);
        }
    }
    let k = dp.len() as int;
    match bt {
        BuildType::Final => {
            assert(s[k] == 'f');
        },
        BuildType::Beta => {
            assert(s[k] == 'b');
        },
        BuildType::Alpha => {
            assert(s[k] == 'a');
        },
        BuildType::ReleaseCandidate => {
            assert(s[k] == 'r');
            assert(s[k + 1] == 'c');
            assert(s.subrange(k, k + 2) =~= seq!['r', 'c']);
            assert(occurs_at(s, seq!['r', 'c'], k));
        },
    }
}

/// The digits of a number hold no `.` and do not start a build type's
/// short name.
proof fn lemma_digits_not(n: nat, c: char)
    requires
        !is_digit(c),
    ensures
        forall|i: int| 0 <= i < decimal(n).len() ==> decimal(n)[i] != c,
{
    lemma_decimal(n);
    assert forall|i: int| 0 <= i < decimal(n).len() implies decimal(n)[i] != c by {
        assert(is_digit(decimal(n)[i]));
    }
}

/// The build part of a version's string form holds no `.`.
proof fn lemma_build_part_no_dot(v: UnityVersion)
    ensures
        forall|i: int|
            0 <= i < (decimal(v.patch as nat) + short_str(v.build_type) + decimal(
                v.build as nat,
            )).len() ==> (decimal(v.patch as nat) + short_str(v.build_type) + decimal(
                v.build as nat,
            ))[i] != '.',
{
    let p = decimal(v.patch as nat);
    let sh = short_str(v.build_type);
    let bn = decimal(v.build as nat);
    let c = p + sh + bn;
    lemma_digits_not(v.patch as nat, '.');
    lemma_digits_not(v.build as nat, '.');
    assert forall|i: int| 0 <= i < c.len() implies c[i] != '.' by {
        if i < p.len() {
            assert(c[i] == p[i]);
        } else if i >= p.len() + sh.len() {
            assert(c[i] == bn[i - p.len() - sh.len()]);
        } else {
            assert(c[i] == sh[i - p.len()]);
        }
    }
}

/// The pieces that parsing finds in a version's string form.
proof fn lemma_version_pieces(v: UnityVersion)
    ensures
        ({
            let a = decimal(v.major as nat);
            let b = decimal(v.minor as nat);
            let c = decimal(v.patch as nat) + short_str(v.build_type) + decimal(v.build as nat);
            &&& rest_after(version_chars(v), '.') == Some(b + seq!['.'] + c)
            &&& first_piece(version_chars(v), '.') == a
            &&& rest_after(b + seq!['.'] + c, '.') == Some(c)
            &&& first_piece(b + seq!['.'] + c, '.') == b
            &&& first_piece(c, '.') == c
        }),
{
    let a = decimal(v.major as nat);
    let b = decimal(v.minor as nat);
    let c = decimal(v.patch as nat) + short_str(v.build_type) + decimal(v.build as nat);
    let dot = seq!['.'];
    assert(version_chars(v) =~= a + dot + (b + dot + c));
    lemma_digits_not(v.major as nat, '.');
    lemma_digits_not(v.minor as nat, '.');
    lemma_split_at(a, dot, b + dot + c);
    lemma_split_at(b, dot, c);
    lemma_build_part_no_dot(v);
    lemma_no_split(c, dot);
}

/// A string whose pieces read as the parts of `v` parses to `v`.
proof fn lemma_parse_from_pieces(
    s: Seq<char>,
    b: Seq<char>,
    c: Seq<char>,
    p: Seq<char>,
    bn: Seq<char>,
    v: UnityVersion,
)
    requires
        rest_after(s, '.') == Some(b + seq!['.'] + c),
        rest_after(b + seq!['.'] + c, '.') == Some(c),
        first_piece(c, '.') == c,
        parse_unsigned(first_piece(s, '.'), 65535) == Some(v.major as int),
        parse_unsigned(first_piece(b + seq!['.'] + c, '.'), 255) == Some(v.minor as int),
        build_type_in(c) == Some(v.build_type),
        split_once_seq(c, short_str(v.build_type)) == Some((p, bn)),
        parse_unsigned(p, 255) == Some(v.patch as int),
        parse_unsigned(bn, 255) == Some(v.build as int),
    ensures
        parse_version(s) == Some(v),
{
    reveal(parse_version);
}

/// Reading the string form of a version gives back the version.
#[verifier::spinoff_prover]
pub proof fn law_parse_display_roundtrip(v: UnityVersion)
    ensures
        parse_version(version_chars(v)) == Some(v),
{
    let a = decimal(v.major as nat);
    let b = decimal(v.minor as nat);
    let p = decimal(v.patch as nat);
    let sh = short_str(v.build_type);
    let bn = decimal(v.build as nat);
    let c = p + sh + bn;
    let s = version_chars(v);
    assert(rest_after(s, '.') == Some(b + seq!['.'] + c) && first_piece(s, '.') == a && rest_after(
        b + seq!['.'] + c,
        '.',
    ) == Some(c) && first_piece(b + seq!['.'] + c, '.') == b && first_piece(c, '.') == c) by {
        lemma_version_pieces(v);
    }
    assert(build_type_in(c) == Some(v.build_type)) by {
        lemma_build_type_in(v.patch as nat, v.build_type, v.build as nat);
    }
    assert(split_once_seq(c, sh) == Some((p, bn))) by {
        assert(!is_digit(sh[0]));
        lemma_digits_not(v.patch as nat, sh[0]);
        lemma_split_at(p, sh, bn);
    }
    assert(parse_unsigned(a, 65535) == Some(v.major as int)) by {
        lemma_parse_decimal(v.major as nat, 65535);
    }
    assert(parse_unsigned(b, 255) == Some(v.minor as int)) by {
        lemma_parse_decimal(v.minor as nat, 255);
    }
    assert(parse_unsigned(p, 255) == Some(v.patch as int)) by {
        lemma_parse_decimal(v.patch as nat, 255);
    }
    assert(parse_unsigned(bn, 255) == Some(v.build as int)) by {
        lemma_parse_decimal(v.build as nat, 255);
    }
    lemma_parse_from_pieces(s, b, c, p, bn, v);
}

/// The length that `len` counts is the length of the string form.
pub proof fn law_len_is_display_len(v: UnityVersion)
    ensures
        version_len(v) == version_chars(v).len(),
{
}

/// Of two distinct versions exactly one comes before the other.
pub proof fn law_version_order_total(a: UnityVersion, b: UnityVersion)
    ensures
        a != b ==> (version_lt(a, b) <==> !version_lt(b, a)),
        !version_lt(a, a),
{
}

/// The version order is transitive.
pub proof fn law_version_order_transitive(a: UnityVersion, b: UnityVersion, c: UnityVersion)
    requires
        version_lt(a, b),
        version_lt(b, c),
    ensures
        version_lt(a, c),
{
}

/// Versions are ordered field by field: by major, minor and patch number,
/// then by build type in the order alpha, beta, release candidate, final,
/// and last by build number. So an alpha comes before a beta of the same
/// patch whatever their build numbers, a beta before a release candidate,
/// and a release candidate before a final release.
pub proof fn law_version_order_fields(a: UnityVersion, b: UnityVersion)
    ensures
        a.major < b.major ==> version_lt(a, b),
        a.major == b.major && a.minor < b.minor ==> version_lt(a, b),
        a.major == b.major && a.minor == b.minor && a.patch < b.patch ==> version_lt(a, b),
        a.major == b.major && a.minor == b.minor && a.patch == b.patch ==> {
            &&& (a.build_type is Alpha && !(b.build_type is Alpha)) ==> version_lt(a, b)
            &&& (a.build_type is Beta && (b.build_type is ReleaseCandidate || b.build_type is Final))
                ==> version_lt(a, b)
            &&& (a.build_type is ReleaseCandidate && b.build_type is Final) ==> version_lt(a, b)
            &&& (a.build_type == b.build_type && a.build < b.build) ==> version_lt(a, b)
        },
        version_lt(a, b) ==> !version_lt(b, a) && a != b,
        a.build_type is Final && b.build_type is Alpha && a.major == b.major && a.minor == b.minor
            && a.patch == b.patch ==> !version_lt(a, b),
{
}

} // verus!
