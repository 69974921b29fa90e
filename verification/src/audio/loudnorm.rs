//! Locating the loudness measurement that ffmpeg's `loudnorm` filter prints.
//!
//! Pass 1 of the two-pass normalisation prints one JSON object near the end
//! of ffmpeg's stderr. The object has no nested objects, so it spans from the
//! last `{` to the last `}`.
use vstd::prelude::*;
use crate::text::{chars_of, string_of_range};

verus! {

/// `k` is the position of the last `c` in `s`.
pub open spec fn is_last_index(s: Seq<char>, c: char, k: int) -> bool {
    &&& 0 <= k < s.len()
    &&& s[k] == c
    &&& forall|j: int| k < j < s.len() ==> s[j] != c
}

/// `c` occurs in `s`.
pub open spec fn has_char(s: Seq<char>, c: char) -> bool {
    exists|j: int| 0 <= j < s.len() && s[j] == c
}

/// The position of the last `c` in `v`, if any.
pub fn last_index(v: &Vec<char>, c: char) -> (r: Option<usize>)
    ensures
        match r {
            Some(k) => is_last_index(v@, c, k as int),
            None => !has_char(v@, c),
        },
{
    let mut i: usize = v.len();
    while i > 0
        invariant
            i <= v.len(),
            forall|j: int| i <= j < v.len() ==> v@[j] != c,
        decreases i,
    {
        if v[i - 1] == c {
            return Some(i - 1);
        }
        i = i - 1;
    }
    None
}

/// The span, as character positions of its braces, of the measurement
/// object in ffmpeg's stderr: from the last `{` to the last `}`. There is
/// none when either brace is missing or the last `}` does not come after
/// the last `{`.
pub fn measurement_span(stderr: &str) -> (r: Option<(usize, usize)>)
    ensures
        match r {
            Some((a, b)) => {
                &&& is_last_index(stderr@, '{', a as int)
                &&& is_last_index(stderr@, '}', b as int)
                &&& a < b
            },
            None => {
                ||| !has_char(stderr@, '{')
                ||| !has_char(stderr@, '}')
                ||| forall|a: int, b: int|
                    is_last_index(stderr@, '{', a) && is_last_index(stderr@, '}', b) ==> b <= a
            },
        },
{
    let v = chars_of(stderr);
    let start = match last_index(&v, '{') {
        Some(k) => k,
        None => return None,
    };
    let end = match last_index(&v, '}') {
        Some(k) => k,
        None => return None,
    };
    if end <= start {
        proof {
            assert forall|a: int, b: int|
                is_last_index(stderr@, '{', a) && is_last_index(stderr@, '}', b) implies b <= a by {
                assert(a == start as int);
                assert(b == end as int);
            }
        }
        return None;
    }
    Some((start, end))
}

/// The measurement object's text (braces included), when there is one.
pub fn measurement_json(stderr: &str) -> (r: Option<String>)
    ensures
        match measurement_span_of(stderr@) {
            Some((a, b)) => r matches Some(s) && s@ == stderr@.subrange(a, b + 1),
            None => r is None,
        },
{
    match measurement_span(stderr) {
        Some((a, b)) => {
            let v = chars_of(stderr);
            proof {
                lemma_span_unique(stderr@, a as int, b as int);
            }
            Some(string_of_range(&v, a, b + 1))
        },
        None => {
            proof {
                lemma_span_none(stderr@);
            }
            None
        },
    }
}

/// The span that `measurement_span` finds, as a spec function.
pub open spec fn measurement_span_of(s: Seq<char>) -> Option<(int, int)> {
    if exists|a: int, b: int| is_last_index(s, '{', a) && is_last_index(s, '}', b) && a < b {
        let (a, b) = choose|a: int, b: int|
            is_last_index(s, '{', a) && is_last_index(s, '}', b) && a < b;
        Some((a, b))
    } else {
        None
    }
}

/// The last position of a character is unique.
proof fn lemma_last_index_unique(s: Seq<char>, c: char, k1: int, k2: int)
    requires
        is_last_index(s, c, k1),
        is_last_index(s, c, k2),
    ensures
        k1 == k2,
{
}

proof fn lemma_span_unique(s: Seq<char>, a: int, b: int)
    requires
        is_last_index(s, '{', a),
        is_last_index(s, '}', b),
        a < b,
    ensures
        measurement_span_of(s) == Some((a, b)),
{
    let (a2, b2) = choose|a2: int, b2: int|
        is_last_index(s, '{', a2) && is_last_index(s, '}', b2) && a2 < b2;
    lemma_last_index_unique(s, '{', a, a2);
    lemma_last_index_unique(s, '}', b, b2);
}

proof fn lemma_span_none(s: Seq<char>)
    requires
        !has_char(s, '{') || !has_char(s, '}') || forall|a: int, b: int|
            is_last_index(s, '{', a) && is_last_index(s, '}', b) ==> b <= a,
    ensures
        measurement_span_of(s) is None,
{
    if exists|a: int, b: int| is_last_index(s, '{', a) && is_last_index(s, '}', b) && a < b {
        let (a, b) = choose|a: int, b: int|
            is_last_index(s, '{', a) && is_last_index(s, '}', b) && a < b;
        assert(s[a] == '{');
        assert(s[b] == '}');
    }
}

} // verus!
