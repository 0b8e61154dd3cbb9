//! The download cache: whether it is used, the file names it keeps
//! downloads under, and when a cached download is still good.

use crate::text::{chars_of, string_of};
use vstd::prelude::*;

verus! {

/// How long a cached download is good without asking the server, in
/// seconds.
pub const CACHE_REFRESH_SECONDS: i64 = 3600;

/// Whether the download cache is used; it can be set once, and is on until
/// then.
pub struct CacheSettings {
    enabled: Option<bool>,
}

/// Why the cache setting could not be changed.
#[derive(Debug, PartialEq, Eq, Structural, Clone, Copy)]
pub enum CacheError {
    /// The setting was already made.
    AlreadySet,
}

impl CacheSettings {
    /// The setting made so far, if any.
    pub closed spec fn setting(&self) -> Option<bool> {
        self.enabled
    }

    /// No setting made: the cache is on.
    pub fn new() -> (r: Self)
        ensures
            r.setting() is None,
    {
        CacheSettings { enabled: None }
    }

    /// Sets whether the cache is enabled. This value can only be set once.
    pub fn set_cache_enabled(&mut self, enabled: bool) -> (r: Result<(), CacheError>)
        ensures
            old(self).setting() is None ==> r is Ok && final(self).setting() == Some(enabled),
            old(self).setting() is Some ==> r == Err::<(), CacheError>(CacheError::AlreadySet)
                && final(self).setting() == old(self).setting(),
    {
        if self.enabled.is_some() {
            Err(CacheError::AlreadySet)
        } else {
            self.enabled = Some(enabled);
            Ok(())
        }
    }

    /// Sets the cache from the value of `UCOM_ENABLE_CACHE`, if the variable
    /// is set: on for `true` and `1`, off otherwise.
    pub fn set_cache_from_env(&mut self, value: Option<&str>) -> (r: Result<(), CacheError>)
        ensures
            match value {
                None => r is Ok && final(self).setting() == old(self).setting(),
                Some(v) => {
                    let on = v@ == "true"@ || v@ == "1"@;
                    &&& old(self).setting() is None ==> r is Ok && final(self).setting() == Some(on)
                    &&& old(self).setting() is Some ==> r is Err && final(self).setting() == old(
                        self,
                    ).setting()
                },
            },
    {
        match value {
            None => Ok(()),
            Some(v) => {
                let s = v.to_string();
                let on = s == "true".to_string() || s == "1".to_string();
                self.set_cache_enabled(on)
            },
        }
    }

    /// Returns whether the cache is enabled; it is unless it was turned off.
    pub fn is_cache_enabled(&self) -> (r: bool)
        ensures
            r == match self.setting() {
                Some(b) => b,
                None => true,
            },
    {
        match self.enabled {
            Some(b) => b,
            None => true,
        }
    }
}

/// The characters that cannot stand in a file name of the cache.
pub open spec fn is_unsafe_file_char(c: char) -> bool {
    c == '.' || c == ' ' || c == '\\' || c == '/' || c == ':' || c == '*' || c == '?' || c == '"'
        || c == '<' || c == '>' || c == '|'
}

/// The file name for a URL: each character that cannot stand in a file
/// name becomes `_`.
pub open spec fn sanitized(s: Seq<char>) -> Seq<char> {
    s.map_values(|c: char| if is_unsafe_file_char(c) { '_' } else { c })
}

/// Returns the name of the cache file for the given URL.
pub fn sanitize_filename(filename: &str) -> (r: String)
    ensures
        r@ == sanitized(filename@),
{
    let cs = chars_of(filename);
    let mut out: Vec<char> = Vec::new();
    let mut i: usize = 0;
    while i < cs.len()
        invariant
            i <= cs@.len(),
            out@ == sanitized(cs@.subrange(0, i as int)),
        decreases cs@.len() - i,
    {
        let c = cs[i];
        let d = if c == '.' || c == ' ' || c == '\\' || c == '/' || c == ':' || c == '*' || c == '?'
            || c == '"' || c == '<' || c == '>' || c == '|' {
            '_'
        } else {
            c
        };
        out.push(d);
        assert(out@ =~= sanitized(cs@.subrange(0, i + 1)));
        i = i + 1;
    }
    assert(cs@.subrange(0, cs@.len() as int) =~= cs@);
    string_of(out.as_slice())
}

/// What is to be done with a cached download.
#[derive(Debug, PartialEq, Eq, Structural, Clone, Copy)]
pub enum CacheState {
    /// The cache is expired.
    Expired,
    /// The cache is still valid.
    Valid,
    /// The cache is still valid but needs to be refreshed.
    RefreshNeeded,
}

/// Decides what to do with a cached download: with no cached file it is
/// fetched; a file at most an hour old is used; an older one is used and
/// refreshed when the server was asked and has no newer version, else
/// fetched again.
pub fn cache_state(cached_age_seconds: Option<i64>, check_for_remote_change: bool, remote_is_newer: bool) -> (r:
    CacheState)
    ensures
        r == match cached_age_seconds {
            None => CacheState::Expired,
            Some(age) => if age <= CACHE_REFRESH_SECONDS {
                CacheState::Valid
            } else if check_for_remote_change && !remote_is_newer {
                CacheState::RefreshNeeded
            } else {
                CacheState::Expired
            },
        },
{
    match cached_age_seconds {
        None => CacheState::Expired,
        Some(age) => {
            if age <= CACHE_REFRESH_SECONDS {
                CacheState::Valid
            } else if check_for_remote_change && !remote_is_newer {
                CacheState::RefreshNeeded
            } else {
                CacheState::Expired
            }
        },
    }
}

/// Whether the server has a newer version than the cached file: the server's
/// time, when it could be had, is later than the file's; when it could not,
/// the file is taken as out of date.
pub fn is_remote_newer_than_local(local_time: i64, server_time: Option<i64>) -> (r: bool)
    ensures
        r == match server_time {
            Some(t) => local_time < t,
            None => true,
        },
{
    match server_time {
        Some(t) => local_time < t,
        None => true,
    }
}

/// A cache file name has as many characters as the URL it is for, and none
/// that cannot stand in a file name; other characters are kept.
pub proof fn law_sanitized_is_safe(s: Seq<char>)
    ensures
        sanitized(s).len() == s.len(),
        forall|i: int| 0 <= i < s.len() ==> !is_unsafe_file_char(#[trigger] sanitized(s)[i]),
        forall|i: int| 0 <= i < s.len() && !is_unsafe_file_char(s[i]) ==> #[trigger] sanitized(s)[i] == s[i],
{
}

} // verus!
