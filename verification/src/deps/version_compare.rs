//! Version-string normalization for update detection.
//!
//! Upstream sources tag their releases inconsistently: yt-dlp ships dates
//! like `2024.05.27`, ffmpeg-static uses `b7.1`, FFmpeg-Builds uses `n7.1`,
//! PyPI uses `4.0.1`, and local installs may carry `+cpu` metadata. The
//! comparison here strips a leading letter prefix (`v`/`V`/`b`/`n`) and any
//! trailing `+local` metadata, then compares dot-separated segments, as
//! integers where both sides read as one.
use vstd::prelude::*;
use crate::text::{
    all_digits, before_first, chars_equal, chars_of, digits_value, find_char_from, is_digit,
    is_ws, parse_u64, parse_u64_chars, split, split_chars, trim, trim_end, trim_start, trim_str,
    views,
};

verus! {

/// The letters that may prefix a version tag.
pub open spec fn is_version_prefix(c: char) -> bool {
    c == 'v' || c == 'V' || c == 'b' || c == 'n'
}

/// A version string trimmed, without its letter prefix and without the
/// `+local` metadata that follows the first `+`.
pub open spec fn stripped_version(s: Seq<char>) -> Seq<char> {
    let t = trim(s);
    let u = if t.len() > 0 && is_version_prefix(t[0]) {
        t.drop_first()
    } else {
        t
    };
    before_first(u, '+')
}

/// Two segments are equal when both read as the same `u64`, or, when
/// either does not read as one, when they are the same text.
pub open spec fn segment_eq(x: Seq<char>, y: Seq<char>) -> bool {
    match (parse_u64(x), parse_u64(y)) {
        (Some(a), Some(b)) => a == b,
        _ => x == y,
    }
}

/// Equality of two version strings after normalization: the same text, or
/// the same number of dot-separated segments that are pairwise equal.
pub open spec fn versions_match(a: Seq<char>, b: Seq<char>) -> bool {
    let na = stripped_version(a);
    let nb = stripped_version(b);
    na == nb || {
        let sa = split(na, '.');
        let sb = split(nb, '.');
        &&& sa.len() == sb.len()
        &&& forall|i: int| 0 <= i < sa.len() ==> segment_eq(#[trigger] sa[i], sb[i])
    }
}

/// Strip a single leading letter prefix (`v`, `V`, `b`, `n`) and the
/// trailing `+localmeta` from a trimmed version string.
pub fn strip_prefix_and_local(s: &str) -> (r: &str)
    ensures
        r@ == stripped_version(s@),
{
    let t = trim_str(s);
    let tv = chars_of(t);
    let start: usize = if tv.len() > 0 && (tv[0] == 'v' || tv[0] == 'V' || tv[0] == 'b' || tv[0]
        == 'n') {
        1
    } else {
        0
    };
    let k = find_char_from(&tv, start, '+');
    proof {
        let u = if tv@.len() > 0 && is_version_prefix(tv@[0]) {
            tv@.drop_first()
        } else {
            tv@
        };
        assert(tv@.skip(start as int) =~= u);
    }
    t.substring_char(start, k)
}

/// Normalize a version string: drop letter prefix and `+local` metadata,
/// trim whitespace.
pub fn normalize(version: &str) -> (r: &str)
    ensures
        r@ == stripped_version(version@),
{
    strip_prefix_and_local(version)
}

/// Whether two segments are equal under `segment_eq`.
fn segments_equal(x: &Vec<char>, y: &Vec<char>) -> (r: bool)
    ensures
        r == segment_eq(x@, y@),
{
    match (parse_u64_chars(x), parse_u64_chars(y)) {
        (Some(a), Some(b)) => a == b,
        _ => chars_equal(x, y),
    }
}

/// Compare two version strings for equality, ignoring leading letter
/// prefixes and trailing `+local` metadata, comparing numeric segments as
/// integers (so `07.1` equals `7.1`, while `7.1` and `7.1.0` differ).
pub fn version_eq_normalized(installed: &str, latest: &str) -> (r: bool)
    ensures
        r == versions_match(installed@, latest@),
{
    let a = chars_of(normalize(installed));
    let b = chars_of(normalize(latest));
    if chars_equal(&a, &b) {
        return true;
    }
    let segs_a = split_chars(&a, '.');
    let segs_b = split_chars(&b, '.');
    if segs_a.len() != segs_b.len() {
        proof {
            assert(views(segs_a@).len() == segs_a@.len());
            assert(views(segs_b@).len() == segs_b@.len());
            assert(split(a@, '.').len() != split(b@, '.').len());
            assert(a@ != b@);
            assert(!versions_match(installed@, latest@));
        }
        return false;
    }
    let ghost sa = split(a@, '.');
    let ghost sb = split(b@, '.');
    let mut i: usize = 0;
    while i < segs_a.len()
        invariant
            segs_a.len() == segs_b.len(),
            a@ == stripped_version(installed@),
            b@ == stripped_version(latest@),
            a@ != b@,
            sa == split(a@, '.'),
            sb == split(b@, '.'),
            views(segs_a@) == sa,
            views(segs_b@) == sb,
            i <= segs_a.len(),
            forall|j: int| 0 <= j < i ==> segment_eq(#[trigger] sa[j], sb[j]),
        decreases segs_a.len() - i,
    {
        assert(sa[i as int] == segs_a@[i as int]@);
        assert(sb[i as int] == segs_b@[i as int]@);
        if !segments_equal(&segs_a[i], &segs_b[i]) {
            assert(!segment_eq(sa[i as int], sb[i as int]));
            return false;
        }
        i = i + 1;
    }
    true
}

/// Compare an optional installed version against a known latest one:
/// true only if the installed version is present and equal.
pub fn opt_version_eq(installed: Option<&str>, latest: &str) -> (r: bool)
    ensures
        r == (match installed {
            Some(i) => versions_match(i@, latest@),
            None => false,
        }),
{
    match installed {
        Some(i) => version_eq_normalized(i, latest),
        None => false,
    }
}

/// Every version string matches itself.
pub proof fn versions_match_reflexive(a: Seq<char>)
    ensures
        versions_match(a, a),
{
}

/// Matching does not depend on which version is the installed one.
pub proof fn versions_match_symmetric(a: Seq<char>, b: Seq<char>)
    ensures
        versions_match(a, b) == versions_match(b, a),
{
    let na = stripped_version(a);
    let nb = stripped_version(b);
    let sa = split(na, '.');
    let sb = split(nb, '.');
    if versions_match(a, b) && na != nb {
        assert forall|i: int| 0 <= i < sb.len() implies segment_eq(#[trigger] sb[i], sa[i]) by {
            assert(segment_eq(sa[i], sb[i]));
        }
    }
    if versions_match(b, a) && na != nb {
        assert forall|i: int| 0 <= i < sa.len() implies segment_eq(#[trigger] sa[i], sb[i]) by {
            assert(segment_eq(sb[i], sa[i]));
        }
    }
}

/// Two segments that both read as numbers are equal exactly when the
/// numbers are: `15` and `25` differ, `07` and `7` do not.
pub proof fn numeric_segments_compare_by_value(x: Seq<char>, y: Seq<char>)
    requires
        parse_u64(x) is Some,
        parse_u64(y) is Some,
    ensures
        segment_eq(x, y) <==> parse_u64(x)->0 == parse_u64(y)->0,
{
}

/// Versions that match have as many dot-separated segments once normalized,
/// and wherever two facing segments both read as numbers, the numbers are
/// the same; so a newer release whose date or version number differs in any
/// field is never taken for the installed one.
pub proof fn matching_versions_agree_on_numbers(a: Seq<char>, b: Seq<char>)
    requires
        versions_match(a, b),
    ensures
        split(stripped_version(a), '.').len() == split(stripped_version(b), '.').len(),
        forall|i: int|
            0 <= i < split(stripped_version(a), '.').len() && (#[trigger] parse_u64(
                split(stripped_version(a), '.')[i],
            )) is Some && parse_u64(split(stripped_version(b), '.')[i]) is Some ==> parse_u64(
                split(stripped_version(a), '.')[i],
            ) == parse_u64(split(stripped_version(b), '.')[i]),
{
    let sa = split(stripped_version(a), '.');
    let sb = split(stripped_version(b), '.');
    assert forall|i: int|
        0 <= i < sa.len() && (#[trigger] parse_u64(sa[i])) is Some && parse_u64(
            sb[i],
        ) is Some implies parse_u64(sa[i]) == parse_u64(sb[i]) by {
        if stripped_version(a) != stripped_version(b) {
            assert(segment_eq(sa[i], sb[i]));
        }
    }
}

proof fn lemma_before_first_absent(s: Seq<char>, c: char)
    requires
        forall|i: int| 0 <= i < s.len() ==> #[trigger] s[i] != c,
    ensures
        before_first(s, c) == s,
    decreases s.len(),
{
    if s.len() > 0 {
        assert forall|i: int| 0 <= i < s.drop_first().len() implies #[trigger] s.drop_first()[i]
            != c by {
            assert(s.drop_first()[i] == s[i + 1]);
        }
        lemma_before_first_absent(s.drop_first(), c);
        assert(seq![s[0]] + s.drop_first() =~= s);
    }
}

proof fn lemma_split_absent(s: Seq<char>, sep: char)
    requires
        forall|i: int| 0 <= i < s.len() ==> #[trigger] s[i] != sep,
    ensures
        split(s, sep) == seq![s],
    decreases s.len(),
{
    if s.len() > 0 {
        assert forall|i: int| 0 <= i < s.drop_last().len() implies #[trigger] s.drop_last()[i]
            != sep by {
            assert(s.drop_last()[i] == s[i]);
        }
        lemma_split_absent(s.drop_last(), sep);
        let p = split(s.drop_last(), sep);
        assert(s.last() == s[s.len() - 1]);
        assert(s.last() != sep);
        assert(p.len() == 1 && p.last() == s.drop_last());
        assert(s.drop_last().push(s.last()) =~= s);
        assert(p.update(0, s) =~= seq![s]);
    } else {
        assert(s =~= Seq::<char>::empty());
    }
}

/// A version written as digits alone is its own normalized form and its own
/// single segment.
proof fn lemma_digit_version(x: Seq<char>)
    requires
        all_digits(x),
    ensures
        stripped_version(x) == x,
        split(x, '.') == seq![x],
        parse_u64(x) == (if digits_value(x) <= u64::MAX {
            Some(digits_value(x) as u64)
        } else {
            None
        }),
{
    assert(!is_ws(x[0]));
    assert(!is_ws(x.last()));
    assert(trim_start(x) == x);
    assert(trim_end(x) == x);
    assert(!is_version_prefix(x[0]));
    assert forall|i: int| 0 <= i < x.len() implies #[trigger] x[i] != '+' by {
        assert(is_digit(x[i]));
    }
    lemma_before_first_absent(x, '+');
    assert forall|i: int| 0 <= i < x.len() implies #[trigger] x[i] != '.' by {
        assert(is_digit(x[i]));
    }
    lemma_split_absent(x, '.');
}

/// Versions written as one number match exactly when the numbers are
/// equal: `07` matches `7`, `15` does not match `25`.
pub proof fn numeric_versions_match_by_value(x: Seq<char>, y: Seq<char>)
    requires
        all_digits(x),
        all_digits(y),
        digits_value(x) <= u64::MAX,
        digits_value(y) <= u64::MAX,
    ensures
        versions_match(x, y) <==> digits_value(x) == digits_value(y),
{
    lemma_digit_version(x);
    lemma_digit_version(y);
    if versions_match(x, y) && x != y {
        assert(segment_eq(split(x, '.')[0], split(y, '.')[0]));
    }
    if digits_value(x) == digits_value(y) && x != y {
        assert(segment_eq(x, y));
        assert(forall|i: int|
            0 <= i < split(x, '.').len() ==> segment_eq(
                #[trigger] split(x, '.')[i],
                split(y, '.')[i],
            ));
    }
}

proof fn segment_eq_transitive(x: Seq<char>, y: Seq<char>, z: Seq<char>)
    requires
        segment_eq(x, y),
        segment_eq(y, z),
    ensures
        segment_eq(x, z),
{
}

/// Two versions that match a third match each other.
pub proof fn versions_match_transitive(a: Seq<char>, b: Seq<char>, c: Seq<char>)
    requires
        versions_match(a, b),
        versions_match(b, c),
    ensures
        versions_match(a, c),
{
    let na = stripped_version(a);
    let nb = stripped_version(b);
    let nc = stripped_version(c);
    let sa = split(na, '.');
    let sb = split(nb, '.');
    let sc = split(nc, '.');
    if na != nc {
        assert(sa.len() == sb.len() && sb.len() == sc.len());
        assert forall|i: int| 0 <= i < sa.len() implies segment_eq(#[trigger] sa[i], sc[i]) by {
            if na != nb && nb != nc {
                assert(segment_eq(sa[i], sb[i]));
                assert(segment_eq(sb[i], sc[i]));
                segment_eq_transitive(sa[i], sb[i], sc[i]);
            } else if na == nb {
                assert(segment_eq(sb[i], sc[i]));
            } else {
                assert(segment_eq(sa[i], sb[i]));
            }
        }
    }
}

} // verus!
