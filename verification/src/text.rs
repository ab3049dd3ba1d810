use vstd::prelude::*;

verus! {

/// `s` begins with `p`.
pub open spec fn starts_with(s: Seq<char>, p: Seq<char>) -> bool {
    p.len() <= s.len() && s.subrange(0, p.len() as int) == p
}

/// Character-by-character prefix test.
pub fn str_starts_with(s: &str, p: &str) -> (b: bool)
    ensures
        b == starts_with(s@, p@),
{
    let n = s.unicode_len();
    let m = p.unicode_len();
    if m > n {
        return false;
    }
    let mut i: usize = 0;
    while i < m
        invariant
            i <= m,
            m <= n,
            n == s@.len(),
            m == p@.len(),
            forall|k: int| 0 <= k < i ==> s@[k] == p@[k],
        decreases m - i,
    {
        if s.get_char(i) != p.get_char(i) {
            assert(s@.subrange(0, p@.len() as int)[i as int] == s@[i as int]);
            return false;
        }
        i += 1;
    }
    assert(s@.subrange(0, p@.len() as int) =~= p@);
    true
}

/// The Unicode white-space characters, as a trim of surrounding
/// whitespace removes them: the five ASCII controls, the space, and the
/// White_Space code points beyond ASCII.
pub open spec fn is_space(c: char) -> bool {
    let n = c as u32;
    n == 0x20 || (0x09 <= n && n <= 0x0D) || n == 0x85 || n == 0xA0 || n == 0x1680 || (0x2000 <= n
        && n <= 0x200A) || n == 0x2028 || n == 0x2029 || n == 0x202F || n == 0x205F || n == 0x3000
}

/// `s` with its leading whitespace dropped.
pub open spec fn trim_front(s: Seq<char>) -> Seq<char>
    decreases s.len(),
{
    if s.len() > 0 && is_space(s.first()) {
        trim_front(s.drop_first())
    } else {
        s
    }
}

/// `s` with its trailing whitespace dropped.
pub open spec fn trim_back(s: Seq<char>) -> Seq<char>
    decreases s.len(),
{
    if s.len() > 0 && is_space(s.last()) {
        trim_back(s.drop_last())
    } else {
        s
    }
}

/// `s` with whitespace dropped from both ends.
pub open spec fn trimmed(s: Seq<char>) -> Seq<char> {
    trim_back(trim_front(s))
}

/// Dropping leading whitespace is skipping up to the first non-space.
pub proof fn lemma_trim_front_skip(s: Seq<char>, i: int)
    requires
        0 <= i <= s.len(),
        forall|k: int| 0 <= k < i ==> is_space(s[k]),
        i == s.len() || !is_space(s[i]),
    ensures
        trim_front(s) == s.skip(i),
    decreases i,
{
    if i == 0 {
        assert(s.skip(0) =~= s);
    } else {
        let d = s.drop_first();
        assert(forall|k: int| 0 <= k < i - 1 ==> is_space(d[k]));
        lemma_trim_front_skip(d, i - 1);
        assert(d.skip(i - 1) =~= s.skip(i));
    }
}

/// Dropping trailing whitespace is keeping up to the last non-space.
pub proof fn lemma_trim_back_take(s: Seq<char>, j: int)
    requires
        0 <= j <= s.len(),
        forall|k: int| j <= k < s.len() ==> is_space(s[k]),
        j == 0 || !is_space(s[j - 1]),
    ensures
        trim_back(s) == s.take(j),
    decreases s.len() - j,
{
    if j == s.len() {
        assert(s.take(j) =~= s);
    } else {
        let d = s.drop_last();
        assert(is_space(s.last()));
        assert(forall|k: int| j <= k < d.len() ==> is_space(d[k]));
        lemma_trim_back_take(d, j);
        assert(d.take(j) =~= s.take(j));
    }
}

/// Whether `c` is one of the white-space characters.
pub fn is_space_char(c: char) -> (b: bool)
    ensures
        b == is_space(c),
{
    let n = c as u32;
    n == 0x20 || (0x09 <= n && n <= 0x0D) || n == 0x85 || n == 0xA0 || n == 0x1680 || (0x2000 <= n
        && n <= 0x200A) || n == 0x2028 || n == 0x2029 || n == 0x202F || n == 0x205F || n == 0x3000
}

/// Position of the first non-whitespace character of `s`, or its length
/// when there is none.
pub fn first_non_space(s: &str) -> (r: usize)
    ensures
        r <= s@.len(),
        forall|k: int| 0 <= k < r ==> is_space(s@[k]),
        r == s@.len() || !is_space(s@[r as int]),
{
    let n = s.unicode_len();
    let mut i: usize = 0;
    while i < n
        invariant
            i <= n,
            n == s@.len(),
            forall|k: int| 0 <= k < i ==> is_space(s@[k]),
        decreases n - i,
    {
        if !is_space_char(s.get_char(i)) {
            return i;
        }
        i += 1;
    }
    i
}

/// Position just past the last non-whitespace character of `s` at or after
/// `from`, or `from` itself when everything from there on is whitespace.
pub fn last_non_space_from(s: &str, from: usize) -> (r: usize)
    requires
        from <= s@.len(),
    ensures
        from <= r <= s@.len(),
        forall|k: int| r <= k < s@.len() ==> is_space(s@[k]),
        r == from || !is_space(s@[r as int - 1]),
{
    let n = s.unicode_len();
    let mut j: usize = n;
    while j > from
        invariant
            from <= j <= n,
            n == s@.len(),
            forall|k: int| j <= k < n ==> is_space(s@[k]),
        decreases j,
    {
        if !is_space_char(s.get_char(j - 1)) {
            return j;
        }
        j -= 1;
    }
    j
}

/// `s` with exactly one `/` guaranteed at its end: unchanged when it
/// already ends with one, extended by one otherwise.
pub open spec fn with_trailing_slash(s: Seq<char>) -> Seq<char> {
    if s.len() > 0 && s.last() == '/' {
        s
    } else {
        s.push('/')
    }
}

/// Normalizes a directory string to end with a path separator.
pub fn normalize_source_dir(s: &str) -> (r: String)
    ensures
        r@ == with_trailing_slash(s@),
{
    proof {
        reveal_strlit("/");
    }
    let n = s.unicode_len();
    if n > 0 && s.get_char(n - 1) == '/' {
        s.to_owned()
    } else {
        let mut r = s.to_owned();
        r.append("/");
        proof {
            assert(r@ =~= s@.push('/'));
        }
        r
    }
}

/// Character-by-character equality of two string slices.
pub fn str_eq(a: &str, b: &str) -> (r: bool)
    ensures
        r == (a@ == b@),
{
    let n = a.unicode_len();
    let m = b.unicode_len();
    if n != m {
        return false;
    }
    proof {
        assert(a@.subrange(0, b@.len() as int) =~= a@);
    }
    str_starts_with(a, b)
}

} // verus!
