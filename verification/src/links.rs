use vstd::prelude::*;

verus! {

// The link-shape grammar used by job admission.  A submission is accepted when
// it contains, anywhere in the text,
//
//     (http:// | https:// )?
//     ( youtu.be/
//     | (www. | m.)? youtube.com/ (watch | v | embed) (.php)? ( / | ?...v= )
//     )
//     followed by at least one video-id character,
//
// where `?...v=` is a query part: a `?`, then any run of non-newline
// characters, then `v=`.

/// Characters allowed in a video id: `[A-Za-z0-9_-]`.
pub open spec fn is_id_char(c: char) -> bool {
    let u = c as u32;
    (48 <= u && u <= 57)  // 0-9
    || (65 <= u && u <= 90)  // A-Z
    || (97 <= u && u <= 122)  // a-z
    || u == 95  // _
    || u == 45  // -
}

/// The literal `pat` occurs in `s` starting at position `i`.
pub open spec fn lit_at(s: Seq<char>, i: int, pat: Seq<char>) -> bool {
    &&& 0 <= i
    &&& i + pat.len() <= s.len()
    &&& forall|j: int| 0 <= j < pat.len() ==> s[i + j] == #[trigger] pat[j]
}

/// At position `q` (at or after `start`) stands `v=` and then an id
/// character, with nothing but non-newline characters between `start` and `q`.
pub open spec fn qv_at(s: Seq<char>, start: int, q: int) -> bool {
    &&& 0 <= start <= q
    &&& q + 2 < s.len()
    &&& s[q] == 'v'
    &&& s[q + 1] == '='
    &&& is_id_char(s[q + 2])
    &&& forall|r: int| start <= r < q ==> #[trigger] s[r] != '\n'
}

/// A query string beginning at `start` that eventually selects a video:
/// `...v=<id char>` with no newline before the `v=`.
pub open spec fn query_tail(s: Seq<char>, start: int) -> bool {
    exists|q: int| #[trigger] qv_at(s, start, q)
}

/// What may follow the path verb: either `/` and an id character, or a query
/// part `?...v=` and an id character.
pub open spec fn tail_at(s: Seq<char>, p: int) -> bool {
    ||| (0 <= p && p + 1 < s.len() && s[p] == '/' && is_id_char(s[p + 1]))
    ||| (0 <= p && p < s.len() && s[p] == '?' && query_tail(s, p + 1))
}

/// The tail, optionally preceded by a `.php` suffix on the verb.
pub open spec fn php_tail(s: Seq<char>, p: int) -> bool {
    ||| tail_at(s, p)
    ||| (lit_at(s, p, ".php"@) && tail_at(s, p + 4))
}

/// One of the path verbs `watch`, `v` or `embed`, then its tail.
pub open spec fn verb_tail(s: Seq<char>, m: int) -> bool {
    ||| (lit_at(s, m, "watch"@) && php_tail(s, m + 5))
    ||| (0 <= m && m < s.len() && s[m] == 'v' && php_tail(s, m + 1))
    ||| (lit_at(s, m, "embed"@) && php_tail(s, m + 5))
}

/// The long host form `youtube.com/` with a verb and tail after it.
pub open spec fn com_at(s: Seq<char>, k: int) -> bool {
    lit_at(s, k, "youtube.com/"@) && verb_tail(s, k + 12)
}

/// The host part: the short form `youtu.be/<id>` or the long form with an
/// optional `www.` or `m.` prefix.
pub open spec fn host_at(s: Seq<char>, j: int) -> bool {
    ||| (lit_at(s, j, "youtu.be/"@) && j + 9 < s.len() && is_id_char(s[j + 9]))
    ||| com_at(s, j)
    ||| (lit_at(s, j, "www."@) && com_at(s, j + 4))
    ||| (lit_at(s, j, "m."@) && com_at(s, j + 2))
}

/// A whole link occurrence starting at `i`: an optional scheme, then a host.
pub open spec fn link_at(s: Seq<char>, i: int) -> bool {
    ||| host_at(s, i)
    ||| (lit_at(s, i, "http://"@) && host_at(s, i + 7))
    ||| (lit_at(s, i, "https://"@) && host_at(s, i + 8))
}

/// The submission contains a link occurrence somewhere.
pub open spec fn contains_link(s: Seq<char>) -> bool {
    exists|i: int| #[trigger] link_at(s, i)
}

fn id_char(c: char) -> (r: bool)
    ensures
        r == is_id_char(c),
{
    let u = c as u32;
    (48 <= u && u <= 57) || (65 <= u && u <= 90) || (97 <= u && u <= 122) || u == 95 || u == 45
}

/// Compares `s` at position `i` against the literal `pat` of length `m`.
fn lit_match(s: &str, n: usize, i: usize, pat: &str, m: usize) -> (r: bool)
    requires
        n == s@.len(),
        i <= n,
        m == pat@.len(),
    ensures
        r == lit_at(s@, i as int, pat@),
{
    if m > n - i {
        return false;
    }
    let mut j: usize = 0;
    while j < m
        invariant
            0 <= j <= m,
            n == s@.len(),
            m == pat@.len(),
            i + m <= n,
            forall|k: int| 0 <= k < j ==> s@[i + k] == #[trigger] pat@[k],
        decreases m - j,
    {
        if s.get_char(i + j) != pat.get_char(j) {
            assert(s@[i + j] != pat@[j as int]);
            return false;
        }
        j += 1;
    }
    true
}

/// Scans for `v=` followed by an id character, stopping at a newline.
fn match_query(s: &str, n: usize, start: usize) -> (r: bool)
    requires
        n == s@.len(),
        start <= n,
    ensures
        r == query_tail(s@, start as int),
{
    let mut q: usize = start;
    while n - q > 2
        invariant
            start <= q <= n,
            n == s@.len(),
            forall|r: int| start <= r < q ==> #[trigger] s@[r] != '\n',
            forall|j: int| start <= j < q ==> !qv_at(s@, start as int, j),
        decreases n - q,
    {
        let c = s.get_char(q);
        if c == '\n' {
            assert forall|j: int| !qv_at(s@, start as int, j) by {
                if qv_at(s@, start as int, j) {
                    if j < q {
                    } else if j == q {
                        assert(s@[j] == 'v');
                    } else {
                        assert(s@[q as int] != '\n');
                    }
                }
            }
            return false;
        }
        if c == 'v' && s.get_char(q + 1) == '=' && id_char(s.get_char(q + 2)) {
            assert(qv_at(s@, start as int, q as int));
            return true;
        }
        q += 1;
    }
    assert forall|j: int| !qv_at(s@, start as int, j) by {
        if qv_at(s@, start as int, j) {
            if j < q {
            } else {
                assert(j + 2 < n);
            }
        }
    }
    false
}

/// Decides the tail form at `p`: `/<id>` or `?...v=<id>`.
fn match_tail(s: &str, n: usize, p: usize) -> (r: bool)
    requires
        n == s@.len(),
        p <= n,
    ensures
        r == tail_at(s@, p as int),
{
    if p < n {
        let c = s.get_char(p);
        if c == '/' {
            if p + 1 < n {
                return id_char(s.get_char(p + 1));
            }
            return false;
        }
        if c == '?' {
            return match_query(s, n, p + 1);
        }
    }
    false
}

/// Decides the tail at `p`, allowing an optional `.php` suffix first.
fn match_php_tail(s: &str, n: usize, p: usize) -> (r: bool)
    requires
        n == s@.len(),
        p <= n,
    ensures
        r == php_tail(s@, p as int),
{
    if match_tail(s, n, p) {
        return true;
    }
    proof {
        reveal_strlit(".php");
    }
    if lit_match(s, n, p, ".php", 4) {
        return match_tail(s, n, p + 4);
    }
    false
}

/// Decides whether a path verb with its tail stands at `m`.
fn match_verb_tail(s: &str, n: usize, m: usize) -> (r: bool)
    requires
        n == s@.len(),
        m <= n,
    ensures
        r == verb_tail(s@, m as int),
{
    proof {
        reveal_strlit("watch");
        reveal_strlit("embed");
    }
    if lit_match(s, n, m, "watch", 5) {
        if match_php_tail(s, n, m + 5) {
            return true;
        }
    }
    if m < n && s.get_char(m) == 'v' {
        if match_php_tail(s, n, m + 1) {
            return true;
        }
    }
    if lit_match(s, n, m, "embed", 5) {
        if match_php_tail(s, n, m + 5) {
            return true;
        }
    }
    false
}

/// Decides whether the long host form stands at `k`.
fn match_com(s: &str, n: usize, k: usize) -> (r: bool)
    requires
        n == s@.len(),
        k <= n,
    ensures
        r == com_at(s@, k as int),
{
    proof {
        reveal_strlit("youtube.com/");
    }
    if lit_match(s, n, k, "youtube.com/", 12) {
        return match_verb_tail(s, n, k + 12);
    }
    false
}

/// Decides whether a host part stands at `j`.
fn match_host(s: &str, n: usize, j: usize) -> (r: bool)
    requires
        n == s@.len(),
        j <= n,
    ensures
        r == host_at(s@, j as int),
{
    proof {
        reveal_strlit("youtu.be/");
        reveal_strlit("www.");
        reveal_strlit("m.");
    }
    if lit_match(s, n, j, "youtu.be/", 9) {
        if j + 9 < n && id_char(s.get_char(j + 9)) {
            return true;
        }
    }
    if match_com(s, n, j) {
        return true;
    }
    if lit_match(s, n, j, "www.", 4) {
        if match_com(s, n, j + 4) {
            return true;
        }
    }
    if lit_match(s, n, j, "m.", 2) {
        if match_com(s, n, j + 2) {
            return true;
        }
    }
    false
}

/// Decides whether a link occurrence starts at `i`.
fn match_link_at(s: &str, n: usize, i: usize) -> (r: bool)
    requires
        n == s@.len(),
        i <= n,
    ensures
        r == link_at(s@, i as int),
{
    proof {
        reveal_strlit("http://");
        reveal_strlit("https://");
    }
    if match_host(s, n, i) {
        return true;
    }
    if lit_match(s, n, i, "http://", 7) {
        if match_host(s, n, i + 7) {
            return true;
        }
    }
    if lit_match(s, n, i, "https://", 8) {
        if match_host(s, n, i + 8) {
            return true;
        }
    }
    false
}

/// Decides whether the submission text contains a link of the accepted shape.
pub fn is_youtube_link(s: &str) -> (r: bool)
    ensures
        r == contains_link(s@),
{
    let n = s.unicode_len();
    let mut i: usize = 0;
    while i < n
        invariant
            0 <= i <= n,
            n == s@.len(),
            forall|j: int| 0 <= j < i ==> !link_at(s@, j),
        decreases n - i,
    {
        if match_link_at(s, n, i) {
            return true;
        }
        i += 1;
    }
    assert forall|j: int| !link_at(s@, j) by {
        if link_at(s@, j) {
            if 0 <= j < n {
            } else {
                assert(!host_at(s@, j));
                assert(!lit_at(s@, j, "http://"@));
                assert(!lit_at(s@, j, "https://"@));
            }
        }
    }
    false
}

} // verus!
