use vstd::prelude::*;
use crate::text::{starts_with, str_eq, str_starts_with};

verus! {

/// `s` with the prefix `p` taken off when it begins with it, unchanged
/// otherwise.
pub open spec fn strip_prefix_spec(s: Seq<char>, p: Seq<char>) -> Seq<char> {
    if starts_with(s, p) {
        s.skip(p.len() as int)
    } else {
        s
    }
}

/// `s` with the suffix `p` taken off when it ends with it, unchanged
/// otherwise.
pub open spec fn strip_suffix_spec(s: Seq<char>, p: Seq<char>) -> Seq<char> {
    if p.len() <= s.len() && s.subrange(s.len() - p.len(), s.len() as int) == p {
        s.take(s.len() - p.len())
    } else {
        s
    }
}

/// A remote URL reduced to its path: the known prefixes are stripped in
/// order, then one trailing `.git` suffix.
pub open spec fn cleaned_url(url: Seq<char>) -> Seq<char> {
    let a = strip_prefix_spec(url, "https://"@);
    let b = strip_prefix_spec(a, "git@"@);
    let c = strip_prefix_spec(b, "github.com:"@);
    let d = strip_prefix_spec(c, "github.com/"@);
    strip_suffix_spec(d, ".git"@)
}

/// `i` is the position of the first `/` in `s`.
pub open spec fn first_slash_at(s: Seq<char>, i: int) -> bool {
    0 <= i < s.len() && s[i] == '/' && (forall|k: int| 0 <= k < i ==> s[k] != '/')
}

/// Some position of `s` holds a `/`.
pub open spec fn has_slash(s: Seq<char>) -> bool {
    exists|i: int| 0 <= i < s.len() && s[i] == '/'
}

/// The position of the first `/` in `s`, meaningful only when `has_slash(s)`.
pub open spec fn first_slash_index(s: Seq<char>) -> int {
    choose|i: int| first_slash_at(s, i)
}

/// The "organization/repository" label read off a cleaned URL: its first two
/// `/`-separated segments joined back with the `/` between them, or nothing
/// when the URL has fewer than two segments.
pub open spec fn identity_of(t: Seq<char>) -> Option<Seq<char>> {
    if !has_slash(t) {
        Option::None
    } else {
        let i = first_slash_index(t);
        let rest = t.skip(i + 1);
        if !has_slash(rest) {
            Option::Some(t)
        } else {
            Option::Some(t.take(i + 1 + first_slash_index(rest)))
        }
    }
}

/// At most one position is the first slash.
pub proof fn lemma_first_slash_unique(s: Seq<char>, i: int, j: int)
    requires
        first_slash_at(s, i),
        first_slash_at(s, j),
    ensures
        i == j,
{
    if i < j {
        assert(s[i] != '/');
    }
    if j < i {
        assert(s[j] != '/');
    }
}

/// Takes `p` off the front of `s` when it stands there.
fn strip_prefix<'a>(s: &'a str, p: &str) -> (r: &'a str)
    ensures
        r@ == strip_prefix_spec(s@, p@),
{
    if str_starts_with(s, p) {
        let n = s.unicode_len();
        let m = p.unicode_len();
        let r = s.substring_char(m, n);
        proof {
            assert(s@.subrange(m as int, n as int) =~= s@.skip(m as int));
        }
        r
    } else {
        s
    }
}

/// Takes one `.git` off the end of `s` when it stands there.
fn strip_git_suffix<'a>(s: &'a str) -> (r: &'a str)
    ensures
        r@ == strip_suffix_spec(s@, ".git"@),
{
    proof {
        reveal_strlit(".git");
    }
    let n = s.unicode_len();
    if n < 4 {
        return s;
    }
    let tail = s.substring_char(n - 4, n);
    if str_eq(tail, ".git") {
        s.substring_char(0, n - 4)
    } else {
        s
    }
}

/// Position of the first `/` in `s`, if any.
fn find_first_slash(s: &str) -> (r: Option<usize>)
    ensures
        (match r {
            Option::Some(i) => first_slash_at(s@, i as int),
            Option::None => !has_slash(s@),
        }),
{
    let n = s.unicode_len();
    let mut i: usize = 0;
    while i < n
        invariant
            i <= n,
            n == s@.len(),
            forall|k: int| 0 <= k < i ==> s@[k] != '/',
        decreases n - i,
    {
        if s.get_char(i) == '/' {
            return Some(i);
        }
        i += 1;
    }
    None
}

/// Derives the "organization/repository" label from a configured remote
/// URL: strips the known prefixes and a trailing `.git`, and joins the
/// first two remaining `/`-separated segments. Absent when fewer than two
/// segments remain. Purely informational; the caller must not abort on an
/// absent result.
pub fn resolve_remote_identity(url: &str) -> (r: Option<String>)
    ensures
        (match r {
            Option::Some(id) => identity_of(cleaned_url(url@)) == Option::Some(id@),
            Option::None => identity_of(cleaned_url(url@)) is None,
        }),
{
    let a = strip_prefix(url, "https://");
    let b = strip_prefix(a, "git@");
    let c = strip_prefix(b, "github.com:");
    let d = strip_prefix(c, "github.com/");
    let t = strip_git_suffix(d);
    match find_first_slash(t) {
        None => None,
        Some(i) => {
            let n = t.unicode_len();
            let rest = t.substring_char(i + 1, n);
            proof {
                assert(t@.subrange(i + 1, n as int) =~= t@.skip(i + 1));
                assert(first_slash_at(t@, first_slash_index(t@)));
                lemma_first_slash_unique(t@, first_slash_index(t@), i as int);
            }
            match find_first_slash(rest) {
                None => Some(t.to_owned()),
                Some(j) => {
                    let id = t.substring_char(0, i + 1 + j);
                    proof {
                        let rest_s = t@.skip(i + 1);
                        assert(first_slash_at(rest_s, first_slash_index(rest_s)));
                        lemma_first_slash_unique(rest_s, first_slash_index(rest_s), j as int);
                        assert(t@.subrange(0, i + 1 + j) =~= t@.take(i + 1 + j));
                    }
                    Some(id.to_owned())
                },
            }
        },
    }
}

} // verus!
