//! The version manifest and its parser.
//!
//! The server answers the manifest request with a small JSON-like body
//! that holds at least the current game version under the key
//! `"currentGameVersion"`; every other field is ignored. The parser
//! extracts that one quoted string value. A body in which the key, the
//! colon or the quoted value cannot be found is malformed, and the
//! caller treats that exactly like a transport failure.

use vstd::prelude::*;

verus! {

/// The authoritative record fetched fresh each session: the server's
/// current game version, and whether the secure transport delivered it.
#[derive(Debug)]
pub struct VersionManifest {
    /// Server-declared latest build identifier.
    pub current_game_version: String,
    /// True when this manifest arrived over the secure transport,
    /// false when the session degraded to the insecure one.
    pub transport_secure: bool,
}

/// The mathematical view of a `VersionManifest`.
pub struct ManifestView {
    pub current_game_version: Seq<char>,
    pub transport_secure: bool,
}

impl View for VersionManifest {
    type V = ManifestView;

    open spec fn view(&self) -> ManifestView {
        ManifestView {
            current_game_version: self.current_game_version@,
            transport_secure: self.transport_secure,
        }
    }
}

/// The key under which the manifest body carries the version string,
/// quotes included.
pub open spec fn spec_version_key() -> Seq<char> {
    "\"currentGameVersion\""@
}

/// JSON whitespace.
pub open spec fn spec_is_space(ch: char) -> bool {
    ch == ' ' || ch == '\t' || ch == '\n' || ch == '\r'
}

/// The first position at or after `from` where the non-empty `needle`
/// occurs in `hay`, if any.
pub open spec fn spec_find(hay: Seq<char>, needle: Seq<char>, from: int) -> Option<int>
    decreases hay.len() - from,
{
    if from < 0 || needle.len() == 0 || from + needle.len() > hay.len() {
        None
    } else if hay.subrange(from, from + needle.len() as int) == needle {
        Some(from)
    } else {
        spec_find(hay, needle, from + 1)
    }
}

/// The first position at or after `from` holding the character `c`,
/// if any.
pub open spec fn spec_find_char(s: Seq<char>, c: char, from: int) -> Option<int>
    decreases s.len() - from,
{
    if !(0 <= from < s.len()) {
        None
    } else if s[from] == c {
        Some(from)
    } else {
        spec_find_char(s, c, from + 1)
    }
}

/// The first position at or after `from` that does not hold JSON
/// whitespace (the string's length if none does).
pub open spec fn spec_skip_spaces(s: Seq<char>, from: int) -> int
    decreases s.len() - from,
{
    if 0 <= from < s.len() && spec_is_space(s[from]) {
        spec_skip_spaces(s, from + 1)
    } else {
        from
    }
}

/// The version string a manifest body carries: the quoted value that
/// follows the first occurrence of the version key, a colon between
/// them, with JSON whitespace allowed around the colon. `None` when
/// the body is malformed.
pub open spec fn spec_extract_version(body: Seq<char>) -> Option<Seq<char>> {
    match spec_find(body, spec_version_key(), 0) {
        None => None,
        Some(k) => {
            let i = spec_skip_spaces(body, k + spec_version_key().len());
            if i < body.len() && body[i] == ':' {
                let j = spec_skip_spaces(body, i + 1);
                if j < body.len() && body[j] == '"' {
                    match spec_find_char(body, '"', j + 1) {
                        None => None,
                        Some(e) => Some(body.subrange(j + 1, e)),
                    }
                } else {
                    None
                }
            } else {
                None
            }
        },
    }
}

/// The manifest a body parses to under the given transport, if it
/// parses at all.
pub open spec fn spec_parse_manifest(body: Seq<char>, transport_secure: bool) -> Option<
    ManifestView,
> {
    match spec_extract_version(body) {
        None => None,
        Some(v) => Some(
            ManifestView { current_game_version: v, transport_secure },
        ),
    }
}

fn is_space_char(ch: char) -> (r: bool)
    ensures
        r == spec_is_space(ch),
{
    ch == ' ' || ch == '\t' || ch == '\n' || ch == '\r'
}

fn match_at(hay: &str, needle: &str, at: usize, nlen: usize) -> (r: bool)
    requires
        nlen == needle@.len(),
        at + nlen <= hay@.len(),
        hay@.len() <= usize::MAX,
    ensures
        r == (hay@.subrange(at as int, at as int + needle@.len() as int) == needle@),
{
    let ghost sub = hay@.subrange(at as int, at as int + needle@.len() as int);
    let mut j: usize = 0;
    while j < nlen
        invariant
            nlen == needle@.len(),
            at + nlen <= hay@.len(),
            hay@.len() <= usize::MAX,
            j <= nlen,
            sub == hay@.subrange(at as int, at as int + needle@.len() as int),
            forall|k: int| 0 <= k < j ==> hay@[at + k] == needle@[k],
        decreases nlen - j,
    {
        let hc = hay.get_char(at + j);
        let nc = needle.get_char(j);
        if hc != nc {
            proof {
                assert(sub[j as int] == hay@[at + j]);
                assert(sub[j as int] != needle@[j as int]);
            }
            return false;
        }
        j += 1;
    }
    proof {
        assert(sub =~= needle@);
    }
    true
}

fn find_from(hay: &str, needle: &str, from: usize, hlen: usize, nlen: usize) -> (r: Option<
    usize,
>)
    requires
        hlen == hay@.len(),
        nlen == needle@.len(),
        from <= hlen,
    ensures
        r is Some <==> spec_find(hay@, needle@, from as int) is Some,
        r matches Some(i) ==> spec_find(hay@, needle@, from as int) == Some(i as int) && from
            <= i && i + nlen <= hlen,
{
    if nlen == 0 || nlen > hlen {
        return None;
    }
    let mut i: usize = from;
    while i <= hlen - nlen
        invariant
            hlen == hay@.len(),
            nlen == needle@.len(),
            0 < nlen <= hlen,
            from <= i,
            spec_find(hay@, needle@, from as int) == spec_find(hay@, needle@, i as int),
        decreases hlen - i,
    {
        if match_at(hay, needle, i, nlen) {
            return Some(i);
        }
        i += 1;
    }
    None
}

fn find_char(s: &str, c: char, from: usize, len: usize) -> (r: Option<usize>)
    requires
        len == s@.len(),
        from <= len,
    ensures
        r is Some <==> spec_find_char(s@, c, from as int) is Some,
        r matches Some(i) ==> spec_find_char(s@, c, from as int) == Some(i as int) && from <= i
            && i < len,
{
    let mut i: usize = from;
    while i < len
        invariant
            len == s@.len(),
            from <= i <= len,
            spec_find_char(s@, c, from as int) == spec_find_char(s@, c, i as int),
        decreases len - i,
    {
        if s.get_char(i) == c {
            return Some(i);
        }
        i += 1;
    }
    None
}

fn skip_spaces(s: &str, from: usize, len: usize) -> (r: usize)
    requires
        len == s@.len(),
        from <= len,
    ensures
        r as int == spec_skip_spaces(s@, from as int),
        from <= r <= len,
{
    let mut i: usize = from;
    while i < len && is_space_char(s.get_char(i))
        invariant
            len == s@.len(),
            from <= i <= len,
            spec_skip_spaces(s@, from as int) == spec_skip_spaces(s@, i as int),
        decreases len - i,
    {
        i += 1;
    }
    i
}

/// Extracts the version string from a manifest body, exactly when the
/// body is well formed as `spec_extract_version` states it.
pub fn extract_version(body: &str) -> (r: Option<String>)
    ensures
        r is Some <==> spec_extract_version(body@) is Some,
        r matches Some(v) ==> Some(v@) == spec_extract_version(body@),
{
    let key = "\"currentGameVersion\"";
    let hlen = body.unicode_len();
    let klen = key.unicode_len();
    match find_from(body, key, 0, hlen, klen) {
        None => None,
        Some(k) => {
            let i = skip_spaces(body, k + klen, hlen);
            if i < hlen {
                let ci = body.get_char(i);
                if ci == ':' {
                    let j = skip_spaces(body, i + 1, hlen);
                    if j < hlen {
                        let cj = body.get_char(j);
                        if cj == '"' {
                            match find_char(body, '"', j + 1, hlen) {
                                None => None,
                                Some(e) => {
                                    let v = body.substring_char(j + 1, e);
                                    Some(v.to_owned())
                                },
                            }
                        } else {
                            None
                        }
                    } else {
                        None
                    }
                } else {
                    None
                }
            } else {
                None
            }
        },
    }
}

/// Parses a manifest body fetched over the given transport. `None`
/// exactly when the body is malformed; the caller then treats the
/// attempt as failed.
pub fn parse_manifest(body: &str, transport_secure: bool) -> (r: Option<VersionManifest>)
    ensures
        r is Some <==> spec_parse_manifest(body@, transport_secure) is Some,
        r matches Some(m) ==> Some(m@) == spec_parse_manifest(body@, transport_secure),
{
    match extract_version(body) {
        None => None,
        Some(v) => Some(
            VersionManifest { current_game_version: v, transport_secure },
        ),
    }
}

} // verus!
