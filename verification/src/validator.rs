//! The URL validator: decides whether one input line is URL-shaped.
//!
//! A string is accepted exactly when the whole of it has the form
//! `http://` or `https://`, then an optional `www.`, then a host of 1 to 256
//! characters from the host class, a literal dot, a top-level-domain segment
//! of 1 to 6 characters from the TLD class, a word boundary, and finally any
//! number of characters from the path class. `spec_valid_url` states this
//! shape as an existential over the positions of the separating dot and of
//! the end of the TLD segment; `is_valid_url` decides it.

use vstd::prelude::*;

verus! {

/// Character class of the host segment: letters, digits and `-@:%._+~#=`.
pub open spec fn is_host_char(c: char) -> bool {
    ('a' <= c && c <= 'z') || ('A' <= c && c <= 'Z') || ('0' <= c && c <= '9') || c == '-'
        || c == '@' || c == ':' || c == '%' || c == '.' || c == '_' || c == '+' || c == '~'
        || c == '#' || c == '='
}

/// Character class of the top-level-domain segment: letters, digits and parentheses.
pub open spec fn is_tld_char(c: char) -> bool {
    ('a' <= c && c <= 'z') || ('A' <= c && c <= 'Z') || ('0' <= c && c <= '9') || c == '('
        || c == ')'
}

/// Character class of the trailing path/query/fragment segment.
pub open spec fn is_path_char(c: char) -> bool {
    is_host_char(c) || c == '(' || c == ')' || c == '?' || c == '&' || c == '/'
}

/// Word characters, as a word boundary counts them: letters, digits and `_`.
pub open spec fn is_word_char(c: char) -> bool {
    ('a' <= c && c <= 'z') || ('A' <= c && c <= 'Z') || ('0' <= c && c <= '9') || c == '_'
}

/// `s` starts with `http://`.
pub open spec fn has_http_prefix(s: Seq<char>) -> bool {
    s.len() >= 7 && s[0] == 'h' && s[1] == 't' && s[2] == 't' && s[3] == 'p' && s[4] == ':'
        && s[5] == '/' && s[6] == '/'
}

/// `s` starts with `https://`.
pub open spec fn has_https_prefix(s: Seq<char>) -> bool {
    s.len() >= 8 && s[0] == 'h' && s[1] == 't' && s[2] == 't' && s[3] == 'p' && s[4] == 's'
        && s[5] == ':' && s[6] == '/' && s[7] == '/'
}

/// `www.` stands at position `b` of `s`.
pub open spec fn has_www_at(s: Seq<char>, b: int) -> bool {
    b + 4 <= s.len() && s[b] == 'w' && s[b + 1] == 'w' && s[b + 2] == 'w' && s[b + 3] == '.'
}

/// A word boundary lies just before position `j` of `s`: the character at
/// `j - 1` and the one at `j` (the end of the string counting as no word
/// character) disagree on being word characters.
pub open spec fn word_boundary(s: Seq<char>, j: int) -> bool {
    is_word_char(s[j - 1]) != (j < s.len() && is_word_char(s[j]))
}

/// The tail of `s` from position `b` on matches host, dot, TLD, boundary and
/// path with the dot at position `i` and the TLD ending just before `j`:
/// the host `s[b..i]` has 1 to 256 characters of the host class, `s[i]` is a
/// dot, the TLD `s[i+1..j]` has 1 to 6 characters of the TLD class, a word
/// boundary lies before `j`, and the path `s[j..]` is all path characters.
pub open spec fn body_match_at(s: Seq<char>, b: int, i: int, j: int) -> bool {
    &&& b + 1 <= i <= b + 256
    &&& i < s.len()
    &&& (forall|k: int| b <= k < i ==> is_host_char(#[trigger] s[k]))
    &&& s[i] == '.'
    &&& i + 2 <= j <= i + 7
    &&& j <= s.len()
    &&& (forall|k: int| i + 1 <= k < j ==> is_tld_char(#[trigger] s[k]))
    &&& word_boundary(s, j)
    &&& (forall|k: int| j <= k < s.len() ==> is_path_char(#[trigger] s[k]))
}

/// Some choice of dot and TLD end makes the tail of `s` from `b` on match.
pub open spec fn body_matches(s: Seq<char>, b: int) -> bool {
    exists|i: int, j: int| #[trigger] body_match_at(s, b, i, j)
}

/// The tail of `s` from `b` on matches, with or without a leading `www.`.
pub open spec fn rest_matches(s: Seq<char>, b: int) -> bool {
    body_matches(s, b) || (has_www_at(s, b) && body_matches(s, b + 4))
}

/// The whole of `s` is URL-shaped: a scheme, then a matching tail.
pub open spec fn spec_valid_url(s: Seq<char>) -> bool {
    (has_http_prefix(s) && rest_matches(s, 7)) || (has_https_prefix(s) && rest_matches(s, 8))
}

/// Every URL-shaped string starts with `http://` or `https://`.
pub proof fn lemma_valid_url_needs_scheme(s: Seq<char>)
    requires
        !has_http_prefix(s),
        !has_https_prefix(s),
    ensures
        !spec_valid_url(s),
{
}

/// Executable mirror of `is_host_char`.
fn host_char(c: char) -> (r: bool)
    ensures
        r == is_host_char(c),
{
    ('a' <= c && c <= 'z') || ('A' <= c && c <= 'Z') || ('0' <= c && c <= '9') || c == '-'
        || c == '@' || c == ':' || c == '%' || c == '.' || c == '_' || c == '+' || c == '~'
        || c == '#' || c == '='
}

/// Executable mirror of `is_tld_char`.
fn tld_char(c: char) -> (r: bool)
    ensures
        r == is_tld_char(c),
{
    ('a' <= c && c <= 'z') || ('A' <= c && c <= 'Z') || ('0' <= c && c <= '9') || c == '('
        || c == ')'
}

/// Executable mirror of `is_path_char`.
fn path_char(c: char) -> (r: bool)
    ensures
        r == is_path_char(c),
{
    host_char(c) || c == '(' || c == ')' || c == '?' || c == '&' || c == '/'
}

/// Executable mirror of `is_word_char`.
fn word_char(c: char) -> (r: bool)
    ensures
        r == is_word_char(c),
{
    ('a' <= c && c <= 'z') || ('A' <= c && c <= 'Z') || ('0' <= c && c <= '9') || c == '_'
}

/// Copies the characters of `s` into a vector, in order.
fn collect_chars(s: &str) -> (v: Vec<char>)
    ensures
        v@ == s@,
{
    let n = s.unicode_len();
    let mut v: Vec<char> = Vec::new();
    let mut k: usize = 0;
    while k < n
        invariant
            k <= n,
            n == s@.len(),
            v@ == s@.subrange(0, k as int),
        decreases n - k,
    {
        let c = s.get_char(k);
        v.push(c);
        k = k + 1;
        proof {
            assert(v@ =~= s@.subrange(0, k as int));
        }
    }
    proof {
        assert(v@ =~= s@);
    }
    v
}

/// Decides whether every character of `v` in `[lo, hi)` is a TLD character.
fn all_tld(v: &Vec<char>, lo: usize, hi: usize) -> (r: bool)
    requires
        lo <= hi <= v.len(),
    ensures
        r == (forall|k: int| lo <= k < hi ==> is_tld_char(#[trigger] v@[k])),
{
    let mut k: usize = lo;
    while k < hi
        invariant
            lo <= k <= hi <= v.len(),
            forall|k2: int| lo <= k2 < k ==> is_tld_char(#[trigger] v@[k2]),
        decreases hi - k,
    {
        if !tld_char(v[k]) {
            return false;
        }
        k = k + 1;
    }
    true
}

/// Decides whether every character of `v` from `lo` to the end is a path character.
fn all_path(v: &Vec<char>, lo: usize) -> (r: bool)
    requires
        lo <= v.len(),
    ensures
        r == (forall|k: int| lo <= k < v@.len() ==> is_path_char(#[trigger] v@[k])),
{
    let mut k: usize = lo;
    while k < v.len()
        invariant
            lo <= k <= v.len(),
            forall|k2: int| lo <= k2 < k ==> is_path_char(#[trigger] v@[k2]),
        decreases v.len() - k,
    {
        if !path_char(v[k]) {
            return false;
        }
        k = k + 1;
    }
    true
}

/// Decides whether a word boundary lies just before position `j` of `v`.
fn boundary_at(v: &Vec<char>, j: usize) -> (r: bool)
    requires
        1 <= j <= v.len(),
    ensures
        r == word_boundary(v@, j as int),
{
    let left = word_char(v[j - 1]);
    let right = if j < v.len() {
        word_char(v[j])
    } else {
        false
    };
    left != right
}

/// With the dot fixed at position `i`, decides whether some end of the TLD
/// segment completes a match of the tail of `v` from `b` on.
fn try_tld_ends(v: &Vec<char>, b: usize, i: usize) -> (r: bool)
    requires
        b + 1 <= i <= b + 256,
        i < v.len(),
        forall|k: int| b <= k < i ==> is_host_char(#[trigger] v@[k]),
        v@[i as int] == '.',
    ensures
        r == exists|j: int| #[trigger] body_match_at(v@, b as int, i as int, j),
{
    let n = v.len();
    let mut t: usize = 1;
    while t <= 6
        invariant
            1 <= t <= 7,
            b + 1 <= i <= b + 256,
            i < n,
            n == v@.len(),
            forall|k: int| b <= k < i ==> is_host_char(#[trigger] v@[k]),
            v@[i as int] == '.',
            forall|j2: int| j2 < i + 1 + t ==> !body_match_at(v@, b as int, i as int, j2),
        decreases 7 - t,
    {
        if t > n - i - 1 {
            proof {
                assert forall|j2: int| !body_match_at(v@, b as int, i as int, j2) by {
                    if j2 >= i + 1 + t {
                        assert(j2 > n);
                    }
                }
            }
            return false;
        }
        let j = i + 1 + t;
        if all_tld(v, i + 1, j) && boundary_at(v, j) && all_path(v, j) {
            proof {
                assert(body_match_at(v@, b as int, i as int, j as int));
            }
            return true;
        }
        t = t + 1;
    }
    proof {
        assert forall|j2: int| !body_match_at(v@, b as int, i as int, j2) by {
            if j2 >= i + 1 + 7 {
                assert(j2 > i + 7);
            }
        }
    }
    false
}

/// Decides whether the tail of `v` from `b` on matches host, dot, TLD,
/// boundary and path for some choice of positions.
fn check_body(v: &Vec<char>, b: usize) -> (r: bool)
    requires
        b <= v.len(),
    ensures
        r == body_matches(v@, b as int),
{
    let n = v.len();
    if b >= n {
        proof {
            assert forall|i2: int, j2: int| !body_match_at(v@, b as int, i2, j2) by {
                if body_match_at(v@, b as int, i2, j2) {
                    assert(i2 < n);
                }
            }
        }
        return false;
    }
    let mut i: usize = b + 1;
    while i < n && i - b <= 256
        invariant
            b + 1 <= i,
            b < n,
            n == v@.len(),
            forall|k: int| b <= k < i - 1 ==> is_host_char(#[trigger] v@[k]),
            forall|i2: int, j2: int| i2 < i ==> !(#[trigger] body_match_at(v@, b as int, i2, j2)),
        decreases n - i,
    {
        if !host_char(v[i - 1]) {
            proof {
                assert forall|i2: int, j2: int| !body_match_at(v@, b as int, i2, j2) by {
                    if body_match_at(v@, b as int, i2, j2) && i2 >= i {
                        assert(is_host_char(v@[i - 1]));
                    }
                }
            }
            return false;
        }
        if v[i] == '.' {
            if try_tld_ends(v, b, i) {
                proof {
                    let j = choose|j: int| body_match_at(v@, b as int, i as int, j);
                    assert(body_match_at(v@, b as int, i as int, j));
                }
                return true;
            }
        } else {
            proof {
                assert forall|j2: int| !body_match_at(v@, b as int, i as int, j2) by {}
            }
        }
        i = i + 1;
    }
    proof {
        assert forall|i2: int, j2: int| !body_match_at(v@, b as int, i2, j2) by {
            if body_match_at(v@, b as int, i2, j2) && i2 >= i {
                assert(i2 < n);
                assert(i2 <= b + 256);
            }
        }
    }
    false
}

/// Decides whether the tail of `v` from `b` on matches, with or without a
/// leading `www.`.
fn check_rest(v: &Vec<char>, b: usize) -> (r: bool)
    requires
        b <= v.len(),
    ensures
        r == rest_matches(v@, b as int),
{
    if check_body(v, b) {
        return true;
    }
    let n = v.len();
    if n - b >= 4 && v[b] == 'w' && v[b + 1] == 'w' && v[b + 2] == 'w' && v[b + 3] == '.' {
        return check_body(v, b + 4);
    }
    false
}

/// Decides whether the whole of `text` is URL-shaped: `http://` or
/// `https://`, an optional `www.`, a host, a dot, a TLD segment, a word
/// boundary, and a path of allowed characters.
pub fn is_valid_url(text: &str) -> (r: bool)
    ensures
        r == spec_valid_url(text@),
{
    let v = collect_chars(text);
    let n = v.len();
    if n >= 8 && v[0] == 'h' && v[1] == 't' && v[2] == 't' && v[3] == 'p' && v[4] == 's'
        && v[5] == ':' && v[6] == '/' && v[7] == '/' {
        return check_rest(&v, 8);
    }
    if n >= 7 && v[0] == 'h' && v[1] == 't' && v[2] == 't' && v[3] == 'p' && v[4] == ':'
        && v[5] == '/' && v[6] == '/' {
        return check_rest(&v, 7);
    }
    false
}

} // verus!

