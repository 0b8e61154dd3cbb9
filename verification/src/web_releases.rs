//! Release information from Unity's release web pages: versions named by
//! year and point release, release entries with their download links, and
//! the filters applied to them.

use crate::text::{
    chars_of, decimal, first_piece, parse_unsigned, parse_unsigned_chars, push_char, push_chars,
    push_decimal, push_str, rest_after, split_once, split_once_char, split_once_seq,
};
use crate::version::{build_type_in, short_str, BuildType};
use vstd::prelude::*;

verus! {

/// A Unity version as the release web pages name it.
#[derive(Debug, PartialEq, Eq, Structural, Clone, Copy)]
pub struct UnityVersion {
    pub year: u16,
    pub point: u8,
    pub patch: u8,
    pub build_type: BuildType,
    pub build: u8,
}

/// The error for a string that is not a Unity version.
#[derive(Debug, PartialEq, Eq, Clone, Copy)]
pub struct UnityVersionParseError;

/// The part of `s` before the first `pat`, or all of `s`.
pub open spec fn first_piece_seq(s: Seq<char>, pat: Seq<char>) -> Seq<char> {
    match split_once_seq(s, pat) {
        Some((l, _)) => l,
        None => s,
    }
}

/// The version a string names, as the release pages name them: the
/// year and point release are the first two pieces between dots; the build
/// type is the first of `f`, `b`, `a` and `rc` anywhere in the string; the
/// third piece is split at the build type's short name into the patch and
/// the build number.
pub open spec fn page_version(s: Seq<char>) -> Option<UnityVersion> {
    match rest_after(s, '.') {
        None => None,
        Some(r1) => match (
            parse_unsigned(first_piece(s, '.'), 65535),
            parse_unsigned(first_piece(r1, '.'), 255),
            build_type_in(s),
            rest_after(r1, '.'),
        ) {
            (Some(year), Some(point), Some(bt), Some(r2)) => {
                let third = first_piece(r2, '.');
                match split_once_seq(third, short_str(bt)) {
                    Some((l, r)) => match (
                        parse_unsigned(l, 255),
                        parse_unsigned(first_piece_seq(r, short_str(bt)), 255),
                    ) {
                        (Some(patch), Some(build)) => Some(
                            UnityVersion {
                                year: year as u16,
                                point: point as u8,
                                patch: patch as u8,
                                build_type: bt,
                                build: build as u8,
                            },
                        ),
                        _ => None,
                    },
                    None => None,
                }
            },
            _ => None,
        },
    }
}

/// The string form of a version.
pub open spec fn page_version_chars(v: UnityVersion) -> Seq<char> {
    decimal(v.year as nat) + seq!['.'] + decimal(v.point as nat) + seq!['.'] + decimal(
        v.patch as nat,
    ) + short_str(v.build_type) + decimal(v.build as nat)
}

impl UnityVersion {
    /// Parses a version string such as `2021.2.14f1`.
    pub fn parse(s: &str) -> (r: Result<Self, UnityVersionParseError>)
        ensures
            match r {
                Ok(v) => page_version(s@) == Some(v),
                Err(_) => page_version(s@) is None,
            },
    {
        let cs = chars_of(s);
        let (p0, r1) = match split_once_char(cs.as_slice(), '.') {
            Some(parts) => parts,
            None => return Err(UnityVersionParseError),
        };
        let year = match parse_unsigned_chars(p0.as_slice(), 65535) {
            Some(v) => v,
            None => return Err(UnityVersionParseError),
        };
        let p1 = match split_once_char(r1.as_slice(), '.') {
            Some((a, _)) => a,
            None => r1.clone(),
        };
        let point = match parse_unsigned_chars(p1.as_slice(), 255) {
            Some(v) => v,
            None => return Err(UnityVersionParseError),
        };
        let build_type = match BuildType::from_chars(cs.as_slice()) {
            Some(bt) => bt,
            None => return Err(UnityVersionParseError),
        };
        let r2 = match split_once_char(r1.as_slice(), '.') {
            Some((_, b)) => b,
            None => return Err(UnityVersionParseError),
        };
        let third = match split_once_char(r2.as_slice(), '.') {
            Some((a, _)) => a,
            None => r2,
        };
        let short = build_type.short_chars();
        let (l, r) = match split_once(third.as_slice(), short.as_slice()) {
            Some(parts) => parts,
            None => return Err(UnityVersionParseError),
        };
        let b = match split_once(r.as_slice(), short.as_slice()) {
            Some((a, _)) => a,
            None => r,
        };
        let patch = match parse_unsigned_chars(l.as_slice(), 255) {
            Some(v) => v,
            None => return Err(UnityVersionParseError),
        };
        let build = match parse_unsigned_chars(b.as_slice(), 255) {
            Some(v) => v,
            None => return Err(UnityVersionParseError),
        };
        Ok(
            UnityVersion {
                year: year as u16,
                point: point as u8,
                patch: patch as u8,
                build_type,
                build: build as u8,
            },
        )
    }

    /// Returns the string form of the version, e.g. `2021.2.14f1`.
    pub fn to_string(&self) -> (r: String)
        ensures
            r@ == page_version_chars(*self),
    {
        let mut s = String::new();
        push_decimal(&mut s, self.year as u64);
        push_char(&mut s, '.');
        push_decimal(&mut s, self.point as u64);
        push_char(&mut s, '.');
        push_decimal(&mut s, self.patch as u64);
        let short = self.build_type.short_chars();
        push_chars(&mut s, short.as_slice());
        push_decimal(&mut s, self.build as u64);
        assert(s@ =~= page_version_chars(*self));
        s
    }
}

/// A release as the release web pages list it.
pub struct ReleaseInfo {
    pub version: UnityVersion,
    pub date_header: String,
    pub installation_url: String,
}

impl ReleaseInfo {
    /// A release entry.
    pub fn new(version: UnityVersion, date_header: String, installation_url: String) -> (r: Self)
        ensures
            r.version == version,
            r.date_header == date_header,
            r.installation_url == installation_url,
    {
        Self { version, date_header, installation_url }
    }
}

/// Which releases are wanted.
pub enum ReleaseFilter {
    All,
    Year { year: u16 },
    Point { year: u16, point: u8 },
}

impl ReleaseFilter {
    /// Returns whether the version is wanted.
    pub fn eval(&self, v: &UnityVersion) -> (r: bool)
        ensures
            r == match *self {
                ReleaseFilter::All => true,
                ReleaseFilter::Year { year } => v.year == year,
                ReleaseFilter::Point { year, point } => v.year == year && v.point == point,
            },
    {
        match self {
            ReleaseFilter::All => true,
            ReleaseFilter::Year { year } => v.year == *year,
            ReleaseFilter::Point { year, point } => v.year == *year && v.point == *point,
        }
    }
}

/// The next to last piece of `s` between slashes, if there is one.
pub open spec fn next_to_last_piece(s: Seq<char>) -> Option<Seq<char>>
    decreases s.len(),
{
    match rest_after(s, '/') {
        None => None,
        Some(r) => match rest_after(r, '/') {
            None => Some(first_piece(s, '/')),
            Some(_) => next_to_last_piece(r),
        },
    }
}

/// Returns the version in an installation link such as
/// `unityhub://2021.2.14f1/bcb93e5482d2`: the next to last piece between
/// slashes.
pub fn version_from_url(url: &str) -> (r: Option<UnityVersion>)
    ensures
        r == match next_to_last_piece(url@) {
            Some(p) => page_version(p),
            None => None,
        },
{
    let cs = chars_of(url);
    let mut cur: Vec<char> = cs;
    loop
        invariant
            next_to_last_piece(cur@) == next_to_last_piece(url@),
        decreases cur@.len(),
    {
        let (first, r) = match split_once_char(cur.as_slice(), '/') {
            Some(parts) => parts,
            None => return None,
        };
        match split_once_char(r.as_slice(), '/') {
            None => {
                let piece = crate::text::string_of(first.as_slice());
                return match UnityVersion::parse(piece.as_str()) {
                    Ok(v) => Some(v),
                    Err(_) => None,
                };
            },
            Some(_) => {
                cur = r;
            },
        }
    }
}

/// The "what's new" page of a version: `year.point.patch` without the build.
pub open spec fn page_notes_url(v: UnityVersion) -> Seq<char> {
    "https://unity.com/releases/editor/whats-new/"@ + decimal(v.year as nat) + seq!['.']
        + decimal(v.point as nat) + seq!['.'] + decimal(v.patch as nat)
}

/// Returns the release notes URL for the given version.
pub fn release_notes_url(version: UnityVersion) -> (r: String)
    ensures
        r@ == page_notes_url(version),
{
    let mut s = String::new();
    push_str(&mut s, "https://unity.com/releases/editor/whats-new/");
    push_decimal(&mut s, version.year as u64);
    push_char(&mut s, '.');
    push_decimal(&mut s, version.point as u64);
    push_char(&mut s, '.');
    push_decimal(&mut s, version.patch as u64);
    s
}

/// The "what's new" page of a version string: the part before the first `f`.
pub open spec fn notes_url_for(version: Seq<char>) -> Seq<char> {
    "https://unity.com/releases/editor/whats-new/"@ + first_piece(version, 'f')
}

/// Returns the release notes URL for the given version string, which is cut
/// at its first `f`.
pub fn release_notes_url_for(version: &str) -> (r: String)
    ensures
        r@ == notes_url_for(version@),
{
    let cs = chars_of(version);
    let head = match split_once_char(cs.as_slice(), 'f') {
        Some((a, _)) => a,
        None => cs,
    };
    let mut s = String::new();
    push_str(&mut s, "https://unity.com/releases/editor/whats-new/");
    push_chars(&mut s, head.as_slice());
    s
}

} // verus!
