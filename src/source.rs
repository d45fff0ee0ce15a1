//! Parsing of repository source URLs into `(owner, repo)` and the bundle
//! download address derived from them.
use vstd::prelude::*;
use crate::outcome::{ErrorKind, Failure, failure};
use crate::text::{
    chars_of, contains, contains_chars, occurs_at, push_all, slice, starts_with, string_of,
    strip_prefixes, strip_suffixes, trim_bounds, trimmed,
};

verus! {

pub const HTTPS_PREFIX: &'static str = "https://github.com/";

pub const SSH_PREFIX: &'static str = "git@github.com:";

pub const GIT_SUFFIX: &'static str = ".git";

pub const RELEASES_MARK: &'static str = "/releases/";

pub const ARCHIVE_HEAD: &'static str = "https://github.com/";

pub const ARCHIVE_TAIL: &'static str = "/archive/refs/heads/main.zip";

/// The `owner/repo...` part of a trimmed URL in one of the accepted forms,
/// with repeated prefixes and `.git` suffixes removed.
pub open spec fn repo_path(url: Seq<char>) -> Option<Seq<char>> {
    let t = trimmed(url);
    if starts_with(t, HTTPS_PREFIX@) {
        Some(strip_suffixes(strip_prefixes(t, HTTPS_PREFIX@), GIT_SUFFIX@))
    } else if starts_with(t, SSH_PREFIX@) {
        Some(strip_suffixes(strip_prefixes(t, SSH_PREFIX@), GIT_SUFFIX@))
    } else {
        None
    }
}

/// The index of the first `/` at or after `from`, or the length of `s`.
pub open spec fn field_end(s: Seq<char>, from: int) -> int
    decreases s.len() - from,
{
    if from >= s.len() || from < 0 || s[from] == '/' {
        from
    } else {
        field_end(s, from + 1)
    }
}

/// The first `/`-separated field of `path`.
pub open spec fn owner_field(path: Seq<char>) -> Seq<char> {
    path.subrange(0, field_end(path, 0))
}

/// The second `/`-separated field of `path`.
pub open spec fn repo_field(path: Seq<char>) -> Seq<char> {
    let e = field_end(path, 0);
    path.subrange(e + 1, field_end(path, e + 1))
}

/// `(owner, repo)` of `url`, when it is in an accepted form and its path has
/// at least two fields, the first two of them non-empty.
pub open spec fn parsed(url: Seq<char>) -> Option<(Seq<char>, Seq<char>)> {
    match repo_path(url) {
        Some(path) => if field_end(path, 0) < path.len() && owner_field(path).len() > 0
            && repo_field(path).len() > 0 {
            Some((owner_field(path), repo_field(path)))
        } else {
            None
        },
        None => None,
    }
}

/// The address from which the bundle named by `url` is downloaded: a release
/// URL is used as given, any other repository URL names the archive of its
/// `main` branch.
pub open spec fn download_address(url: Seq<char>) -> Option<Seq<char>> {
    match parsed(url) {
        Some((owner, repo)) => Some(
            if contains(trimmed(url), RELEASES_MARK@) {
                trimmed(url)
            } else {
                ARCHIVE_HEAD@ + owner + seq!['/'] + repo + ARCHIVE_TAIL@
            },
        ),
        None => None,
    }
}

/// The start of `s[lo..hi]` once leading repetitions of `p` are removed.
fn strip_prefixes_in(s: &Vec<char>, lo: usize, hi: usize, p: &Vec<char>) -> (r: usize)
    requires
        lo <= hi <= s.len(),
    ensures
        lo <= r <= hi,
        s@.subrange(r as int, hi as int) == strip_prefixes(s@.subrange(lo as int, hi as int), p@),
{
    if p.len() == 0 {
        return lo;
    }
    let mut a: usize = lo;
    loop
        invariant
            lo <= a <= hi <= s.len(),
            p.len() > 0,
            strip_prefixes(s@.subrange(lo as int, hi as int), p@) == strip_prefixes(
                s@.subrange(a as int, hi as int),
                p@,
            ),
        decreases hi - a,
    {
        let w = Ghost(s@.subrange(a as int, hi as int));
        if p.len() > hi - a {
            return a;
        }
        proof {
            assert(w@.take(p.len() as int) =~= s@.subrange(a as int, a + p.len()));
            assert(w@.skip(p.len() as int) =~= s@.subrange(a + p.len(), hi as int));
        }
        if !occurs_at(s, a, p) {
            return a;
        }
        a = a + p.len();
    }
}

/// The end of `s[lo..hi]` once trailing repetitions of `p` are removed.
fn strip_suffixes_in(s: &Vec<char>, lo: usize, hi: usize, p: &Vec<char>) -> (r: usize)
    requires
        lo <= hi <= s.len(),
    ensures
        lo <= r <= hi,
        s@.subrange(lo as int, r as int) == strip_suffixes(s@.subrange(lo as int, hi as int), p@),
{
    if p.len() == 0 {
        return hi;
    }
    let mut b: usize = hi;
    loop
        invariant
            lo <= b <= hi <= s.len(),
            p.len() > 0,
            strip_suffixes(s@.subrange(lo as int, hi as int), p@) == strip_suffixes(
                s@.subrange(lo as int, b as int),
                p@,
            ),
        decreases b - lo,
    {
        let w = Ghost(s@.subrange(lo as int, b as int));
        if p.len() > b - lo {
            return b;
        }
        proof {
            assert(w@.skip(w@.len() - p.len()) =~= s@.subrange(b - p.len(), b as int));
            assert(w@.take(w@.len() - p.len()) =~= s@.subrange(lo as int, b - p.len()));
        }
        if !occurs_at(s, b - p.len(), p) {
            return b;
        }
        b = b - p.len();
    }
}

/// The index of the first `/` in `s` at or after `from`, or `s.len()`.
fn find_slash(s: &Vec<char>, from: usize) -> (r: usize)
    requires
        from <= s.len(),
    ensures
        r as int == field_end(s@, from as int),
        from <= r <= s.len(),
{
    let mut i: usize = from;
    while i < s.len() && s[i] != '/'
        invariant
            from <= i <= s.len(),
            field_end(s@, from as int) == field_end(s@, i as int),
        decreases s.len() - i,
    {
        i += 1;
    }
    i
}

/// Whether `s` begins with `p`.
fn begins_with(s: &Vec<char>, p: &Vec<char>) -> (r: bool)
    ensures
        r == starts_with(s@, p@),
{
    let r = occurs_at(s, 0, p);
    proof {
        if p.len() <= s.len() {
            assert(s@.take(p.len() as int) =~= s@.subrange(0, p.len() as int));
        }
    }
    r
}

/// The trimmed characters of `url` and, when they are in an accepted form,
/// the bounds of the first and second path fields within them.
fn locate_fields(url: &str) -> (r: (Vec<char>, Option<(usize, usize, usize, usize)>))
    ensures
        r.0@ == trimmed(url@),
        match r.1 {
            Some((a, b, c, d)) => a <= b < c <= d <= r.0.len() && parsed(url@) == Some(
                (r.0@.subrange(a as int, b as int), r.0@.subrange(c as int, d as int)),
            ),
            None => parsed(url@) is None,
        },
{
    let raw = chars_of(url);
    let (lo, hi) = trim_bounds(&raw);
    let t = slice(&raw, lo, hi);
    let https = chars_of(HTTPS_PREFIX);
    let ssh = chars_of(SSH_PREFIX);
    let git = chars_of(GIT_SUFFIX);
    assert(t@.subrange(0, t.len() as int) =~= t@);
    let a = if begins_with(&t, &https) {
        strip_prefixes_in(&t, 0, t.len(), &https)
    } else if begins_with(&t, &ssh) {
        strip_prefixes_in(&t, 0, t.len(), &ssh)
    } else {
        return (t, None);
    };
    let b = strip_suffixes_in(&t, a, t.len(), &git);
    let path = slice(&t, a, b);
    let e1 = find_slash(&path, 0);
    if e1 == path.len() {
        return (t, None);
    }
    let e2 = find_slash(&path, e1 + 1);
    if e1 == 0 || e2 == e1 + 1 {
        return (t, None);
    }
    proof {
        assert(path@.subrange(0, e1 as int) =~= t@.subrange(a as int, a + e1));
        assert(path@.subrange(e1 + 1, e2 as int) =~= t@.subrange(a + e1 + 1, a + e2));
    }
    (t, Some((a, a + e1, a + e1 + 1, a + e2)))
}

fn parse_failure() -> (r: Failure)
    ensures
        r.kind == ErrorKind::Parse,
{
    failure(ErrorKind::Parse, "invalid GitHub URL format")
}

/// Splits a repository URL (`https://github.com/owner/repo[.git]` or
/// `git@github.com:owner/repo[.git]`, surrounding white space ignored) into
/// its owner and repository names; an empty owner or repository name is a
/// parse failure.
pub fn parse_github_url(url: &str) -> (r: Result<(String, String), Failure>)
    ensures
        match r {
            Ok((owner, repo)) => parsed(url@) == Some((owner@, repo@)),
            Err(f) => parsed(url@) is None && f.kind == ErrorKind::Parse,
        },
{
    let (t, fields) = locate_fields(url);
    match fields {
        Some((a, b, c, d)) => {
            let owner = slice(&t, a, b);
            let repo = slice(&t, c, d);
            Ok((string_of(&owner), string_of(&repo)))
        },
        None => Err(parse_failure()),
    }
}

/// The address from which the bundle for repository URL `url` is fetched.
pub fn bundle_download_url(url: &str) -> (r: Result<String, Failure>)
    ensures
        match r {
            Ok(addr) => download_address(url@) == Some(addr@),
            Err(f) => download_address(url@) is None && f.kind == ErrorKind::Parse,
        },
{
    let (t, fields) = locate_fields(url);
    match fields {
        Some((a, b, c, d)) => {
            let mark = chars_of(RELEASES_MARK);
            if contains_chars(&t, &mark) {
                Ok(string_of(&t))
            } else {
                let mut out = chars_of(ARCHIVE_HEAD);
                push_all(&mut out, &slice(&t, a, b));
                out.push('/');
                push_all(&mut out, &slice(&t, c, d));
                push_all(&mut out, &chars_of(ARCHIVE_TAIL));
                Ok(string_of(&out))
            }
        },
        None => Err(parse_failure()),
    }
}

} // verus!
