use vstd::prelude::*;

verus! {

// The credential-format grammar: three dot-separated segments,
//
//     segment . segment . tail
//
// where the first two segments are non-empty runs of `[A-Za-z0-9_=]` and the
// tail is a possibly empty run of `[A-Za-z0-9_\-+/=]`.  A token is stored only
// if its whole text matches this shape.

/// Characters allowed in the first two segments: `[A-Za-z0-9_=]`.
pub open spec fn is_segment_char(c: char) -> bool {
    let u = c as u32;
    (48 <= u && u <= 57)  // 0-9
    || (65 <= u && u <= 90)  // A-Z
    || (97 <= u && u <= 122)  // a-z
    || u == 95  // _
    || u == 61  // =
}

/// Characters allowed in the third segment: `[A-Za-z0-9_\-+/=]`.
pub open spec fn is_signature_char(c: char) -> bool {
    is_segment_char(c) || (c as u32) == 45 || (c as u32) == 43 || (c as u32) == 47  // - + /
}

/// The tail after the second dot: every remaining character is a signature
/// character (the run may be empty).
pub open spec fn signature_from(s: Seq<char>, t: int) -> bool {
    forall|k: int| t <= k < s.len() ==> is_signature_char(#[trigger] s[k])
}

/// From position `start` on, the rest of the token is a non-empty segment,
/// a dot at `d`, and then the signature tail.
pub open spec fn second_segment_split(s: Seq<char>, start: int, d: int) -> bool {
    &&& start + 1 <= d < s.len()
    &&& s[d] == '.'
    &&& forall|k: int| start <= k < d ==> is_segment_char(#[trigger] s[k])
    &&& signature_from(s, d + 1)
}

/// The whole token splits at a first dot `d`: a non-empty segment before it
/// and a valid remainder after it.
pub open spec fn token_split(s: Seq<char>, d: int) -> bool {
    &&& 1 <= d < s.len()
    &&& s[d] == '.'
    &&& forall|k: int| 0 <= k < d ==> is_segment_char(#[trigger] s[k])
    &&& exists|d2: int| #[trigger] second_segment_split(s, d + 1, d2)
}

/// A credential token is well-formed when some split into the three segments
/// exists.  Because neither character class contains a dot, the split is in
/// fact unique, but the grammar is stated as the pattern reads.
pub open spec fn is_valid_token(s: Seq<char>) -> bool {
    exists|d: int| token_split(s, d)
}

fn segment_char(c: char) -> (r: bool)
    ensures
        r == is_segment_char(c),
{
    let u = c as u32;
    (48 <= u && u <= 57) || (65 <= u && u <= 90) || (97 <= u && u <= 122) || u == 95 || u == 61
}

fn signature_char(c: char) -> (r: bool)
    ensures
        r == is_signature_char(c),
{
    let u = c as u32;
    segment_char(c) || u == 45 || u == 43 || u == 47
}

/// True when every character of `s` in `[from, to)` is a segment character.
fn all_segment_chars(s: &str, n: usize, from: usize, to: usize) -> (r: bool)
    requires
        n == s@.len(),
        from <= to <= n,
    ensures
        r == forall|k: int| from <= k < to ==> is_segment_char(#[trigger] s@[k]),
{
    let mut i: usize = from;
    while i < to
        invariant
            from <= i <= to <= n,
            n == s@.len(),
            forall|k: int| from <= k < i ==> is_segment_char(#[trigger] s@[k]),
        decreases to - i,
    {
        if !segment_char(s.get_char(i)) {
            return false;
        }
        i += 1;
    }
    true
}

/// True when every character of `s` from `from` to the end is a signature
/// character.
fn all_signature_chars(s: &str, n: usize, from: usize) -> (r: bool)
    requires
        n == s@.len(),
        from <= n,
    ensures
        r == signature_from(s@, from as int),
{
    let mut i: usize = from;
    while i < n
        invariant
            from <= i <= n,
            n == s@.len(),
            forall|k: int| from <= k < i ==> is_signature_char(#[trigger] s@[k]),
        decreases n - i,
    {
        if !signature_char(s.get_char(i)) {
            return false;
        }
        i += 1;
    }
    true
}

/// Decides whether the remainder of the token starting at `start` is a
/// non-empty segment, a dot, and a signature tail.
fn check_second_segment(s: &str, n: usize, start: usize) -> (r: bool)
    requires
        n == s@.len(),
        start <= n,
    ensures
        r == exists|d2: int| second_segment_split(s@, start as int, d2),
{
    let mut d2: usize = start;
    while d2 < n
        invariant
            start <= d2 <= n,
            n == s@.len(),
            forall|j: int| start <= j < d2 ==> !second_segment_split(s@, start as int, j),
        decreases n - d2,
    {
        if s.get_char(d2) == '.' && d2 >= start + 1 && all_segment_chars(s, n, start, d2)
            && all_signature_chars(s, n, d2 + 1) {
            assert(second_segment_split(s@, start as int, d2 as int));
            return true;
        }
        d2 += 1;
    }
    false
}

/// Decides whether `s` is a well-formed credential token.
pub fn is_token_format(s: &str) -> (r: bool)
    ensures
        r == is_valid_token(s@),
{
    let n = s.unicode_len();
    let mut d: usize = 0;
    while d < n
        invariant
            0 <= d <= n,
            n == s@.len(),
            forall|j: int| 0 <= j < d ==> !token_split(s@, j),
        decreases n - d,
    {
        if s.get_char(d) == '.' && d >= 1 && all_segment_chars(s, n, 0, d) && check_second_segment(
            s,
            n,
            d + 1,
        ) {
            assert(token_split(s@, d as int));
            return true;
        }
        d += 1;
    }
    false
}

} // verus!
