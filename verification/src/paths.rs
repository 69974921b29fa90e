//! Paths held as text, as `std::path` treats them on each platform:
//! joining a component onto a base the way `PathBuf::push` does, and
//! reading the file name and stem of a path the way `Path::file_name` and
//! `Path::file_stem` do. On macOS and Linux the separator is `/`; on
//! Windows both `/` and `\` separate, a path may start with a drive prefix
//! such as `C:`, and joining inserts `\`.
use vstd::prelude::*;
use crate::platform::TargetOs;
use crate::text::{chars_of, push_char, push_str, split, split_chars, string_of, views};

verus! {

/// Whether `c` separates components on `os`.
pub open spec fn is_sep(c: char, os: TargetOs) -> bool {
    c == '/' || (os == TargetOs::Windows && c == '\\')
}

/// Whether `c` is an ASCII letter.
pub open spec fn is_ascii_alpha(c: char) -> bool {
    ('a' <= c && c <= 'z') || ('A' <= c && c <= 'Z')
}

/// Whether a Windows path starts with a drive prefix (`C:`).
pub open spec fn has_drive(p: Seq<char>) -> bool {
    p.len() >= 2 && is_ascii_alpha(p[0]) && p[1] == ':'
}

/// A path in `/`-separated form: on Windows its drive prefix is dropped
/// and every `\` becomes `/`; elsewhere the path as it is.
pub open spec fn posix_form(p: Seq<char>, os: TargetOs) -> Seq<char> {
    if os == TargetOs::Windows {
        let q = if has_drive(p) {
            p.skip(2)
        } else {
            p
        };
        q.map_values(|c: char| if c == '\\' { '/' } else { c })
    } else {
        p
    }
}

/// `base` with `comp` pushed onto it, with `/` as the only separator: an
/// absolute `comp` replaces `base`; otherwise a separator is inserted
/// unless `base` is empty or already ends in one.
pub open spec fn posix_join(base: Seq<char>, comp: Seq<char>) -> Seq<char> {
    if comp.len() > 0 && comp[0] == '/' {
        comp
    } else if base.len() == 0 || base.last() == '/' {
        base + comp
    } else {
        base + seq!['/'] + comp
    }
}

/// `base` with `comp` pushed onto it on Windows: a `comp` with a drive
/// prefix, or one that starts with two separators (a UNC or verbatim
/// path), replaces `base`; a `comp` that starts with one separator keeps
/// only the drive prefix of `base`; otherwise `\` is inserted unless
/// `base` is empty, ends in a separator or is a bare drive prefix.
pub open spec fn windows_join(base: Seq<char>, comp: Seq<char>) -> Seq<char> {
    let w = TargetOs::Windows;
    if has_drive(comp) || (comp.len() >= 2 && is_sep(comp[0], w) && is_sep(comp[1], w)) {
        comp
    } else if comp.len() > 0 && is_sep(comp[0], w) {
        (if has_drive(base) {
            base.take(2)
        } else {
            Seq::<char>::empty()
        }) + comp
    } else if base.len() == 0 || is_sep(base.last(), w) || (base.len() == 2 && has_drive(base)) {
        base + comp
    } else {
        base + seq!['\\'] + comp
    }
}

/// `base` with `comp` pushed onto it on `os`.
pub open spec fn path_join(base: Seq<char>, comp: Seq<char>, os: TargetOs) -> Seq<char> {
    if os == TargetOs::Windows {
        windows_join(base, comp)
    } else {
        posix_join(base, comp)
    }
}

/// The normal components of a path: its `/`-separated pieces without the
/// empty ones and without `.`.
pub open spec fn named_pieces(p: Seq<char>) -> Seq<Seq<char>> {
    split(p, '/').filter(|c: Seq<char>| c.len() > 0 && c != seq!['.'])
}

/// The last component of a `/`-separated path, unless the path ends in
/// `..` or has no named component (as for `/` or `.`).
pub open spec fn posix_file_name(p: Seq<char>) -> Option<Seq<char>> {
    let ps = named_pieces(p);
    if ps.len() == 0 || ps.last() == seq!['.', '.'] {
        None
    } else {
        Some(ps.last())
    }
}

/// Whether `i` is the index of the last `.` in `n`.
pub open spec fn is_last_dot(n: Seq<char>, i: int) -> bool {
    0 <= i < n.len() && n[i] == '.' && forall|j: int| i < j < n.len() ==> n[j] != '.'
}

/// The part of a file name before its last `.`, unless the name has no
/// `.` or its only `.` leads it (as in `.bashrc`).
pub open spec fn name_stem(n: Seq<char>) -> Seq<char> {
    if exists|i: int| 0 < i && is_last_dot(n, i) {
        n.take(choose|i: int| 0 < i && is_last_dot(n, i))
    } else {
        n
    }
}

/// The last component of a path on `os`.
pub open spec fn path_file_name(p: Seq<char>, os: TargetOs) -> Option<Seq<char>> {
    posix_file_name(posix_form(p, os))
}

/// The file name of a path on `os` without its extension.
pub open spec fn path_file_stem(p: Seq<char>, os: TargetOs) -> Option<Seq<char>> {
    match path_file_name(p, os) {
        Some(n) => Some(name_stem(n)),
        None => None,
    }
}

/// `base` joined with `comp` on `os`.
pub fn join_path(base: &str, comp: &str, os: TargetOs) -> (r: String)
    ensures
        r@ == path_join(base@, comp@, os),
{
    let bv = chars_of(base);
    let cv = chars_of(comp);
    if os != TargetOs::Windows {
        if cv.len() > 0 && cv[0] == '/' {
            return string_of(&cv);
        }
        let mut r = string_of(&bv);
        if bv.len() > 0 && bv[bv.len() - 1] != '/' {
            push_char(&mut r, '/');
            assert(r@ =~= bv@ + seq!['/']);
        }
        push_str(&mut r, comp);
        return r;
    }
    let comp_drive = cv.len() >= 2 && is_alpha(cv[0]) && cv[1] == ':';
    let base_drive = bv.len() >= 2 && is_alpha(bv[0]) && bv[1] == ':';
    if comp_drive || (cv.len() >= 2 && is_win_sep(cv[0]) && is_win_sep(cv[1])) {
        return string_of(&cv);
    }
    if cv.len() > 0 && is_win_sep(cv[0]) {
        let mut r = String::new();
        if base_drive {
            push_char(&mut r, bv[0]);
            push_char(&mut r, bv[1]);
            assert(r@ =~= bv@.take(2));
        }
        push_str(&mut r, comp);
        return r;
    }
    let mut r = string_of(&bv);
    if !(bv.len() == 0 || is_win_sep(bv[bv.len() - 1]) || (bv.len() == 2 && base_drive)) {
        push_char(&mut r, '\\');
        assert(r@ =~= bv@ + seq!['\\']);
    }
    push_str(&mut r, comp);
    r
}

fn is_alpha(c: char) -> (b: bool)
    ensures
        b == is_ascii_alpha(c),
{
    ('a' <= c && c <= 'z') || ('A' <= c && c <= 'Z')
}

fn is_win_sep(c: char) -> (b: bool)
    ensures
        b == is_sep(c, TargetOs::Windows),
{
    c == '/' || c == '\\'
}

/// The characters of `p` in `/`-separated form on `os`.
fn posix_chars(p: &str, os: TargetOs) -> (v: Vec<char>)
    ensures
        v@ == posix_form(p@, os),
{
    let w = chars_of(p);
    if os != TargetOs::Windows {
        return w;
    }
    let start: usize = if w.len() >= 2 && is_alpha(w[0]) && w[1] == ':' {
        2
    } else {
        0
    };
    let ghost q = w@.skip(start as int);
    let mut v: Vec<char> = Vec::new();
    let mut i: usize = start;
    while i < w.len()
        invariant
            start <= i <= w.len(),
            q == w@.skip(start as int),
            v@ == q.take(i - start).map_values(|c: char| if c == '\\' { '/' } else { c }),
        decreases w.len() - i,
    {
        let c = w[i];
        v.push(if c == '\\' { '/' } else { c });
        i = i + 1;
        assert(q.take(i - start) =~= q.take(i - start - 1).push(c));
        assert(v@ =~= q.take(i - start).map_values(|c: char| if c == '\\' { '/' } else { c }));
    }
    assert(q.take(w.len() - start) =~= q);
    assert(start == 2 ==> q =~= p@.skip(2));
    assert(start == 0 ==> q =~= p@);
    v
}

/// The component of `p` that names its file on `os`, if any.
pub fn file_name(p: &str, os: TargetOs) -> (r: Option<String>)
    ensures
        match r {
            Some(n) => path_file_name(p@, os) == Some(n@),
            None => path_file_name(p@, os) is None,
        },
{
    let v = posix_chars(p, os);
    posix_file_name_of(&v)
}

fn posix_file_name_of(v: &Vec<char>) -> (r: Option<String>)
    ensures
        match r {
            Some(n) => posix_file_name(v@) == Some(n@),
            None => posix_file_name(v@) is None,
        },
{
    let pieces = split_chars(v, '/');
    let ghost f = |c: Seq<char>| c.len() > 0 && c != seq!['.'];
    let mut last: Option<usize> = None;
    let mut i: usize = 0;
    while i < pieces.len()
        invariant
            views(pieces@) == split(v@, '/'),
            i <= pieces.len(),
            f == (|c: Seq<char>| c.len() > 0 && c != seq!['.']),
            match last {
                Some(k) => k < i && f(pieces@[k as int]@) && views(pieces@).take(i as int).filter(
                    f,
                ).len() > 0 && views(pieces@).take(i as int).filter(f).last() == pieces@[k as int]@,
                None => views(pieces@).take(i as int).filter(f).len() == 0,
            },
        decreases pieces.len() - i,
    {
        let ghost pv = views(pieces@);
        assert(pv.len() == pieces@.len());
        assert(pv[i as int] == pieces@[i as int]@);
        assert(pv.take(i + 1).len() == i + 1);
        assert(pv.take(i + 1).drop_last() =~= pv.take(i as int));
        assert(pv.take(i + 1).last() == pieces@[i as int]@);
        let piece = &pieces[i];
        let keep = piece.len() > 0 && !(piece.len() == 1 && piece[0] == '.');
        assert(keep == f(pieces@[i as int]@)) by {
            if piece.len() == 1 && piece@[0] == '.' {
                assert(piece@ =~= seq!['.']);
            }
            if piece@ == seq!['.'] {
                assert(piece@[0] == '.');
            }
        }
        assert(pv.take(i + 1) =~= pv.take(i as int).push(pv[i as int]));
        proof {
            pv.take(i as int).lemma_filter_push(pv[i as int], f);
        }
        assert(pv.take(i + 1).filter(f) == (if f(pieces@[i as int]@) {
            pv.take(i as int).filter(f).push(pieces@[i as int]@)
        } else {
            pv.take(i as int).filter(f)
        }));
        if keep {
            last = Some(i);
        }
        i = i + 1;
    }
    let ghost pv = views(pieces@);
    assert(pv.take(pieces.len() as int) =~= pv);
    match last {
        None => None,
        Some(k) => {
            let piece = &pieces[k];
            if piece.len() == 2 && piece[0] == '.' && piece[1] == '.' {
                assert(piece@ =~= seq!['.', '.']);
                None
            } else {
                assert(piece@ != seq!['.', '.']);
                Some(string_of(piece))
            }
        },
    }
}

/// The stem of a file name, as `name_stem` states it.
pub fn stem_of_name(n: &Vec<char>) -> (r: Vec<char>)
    ensures
        r@ == name_stem(n@),
{
    let mut k = n.len();
    while k > 0 && n[k - 1] != '.'
        invariant
            k <= n.len(),
            forall|j: int| k <= j < n.len() ==> n@[j] != '.',
        decreases k,
    {
        k = k - 1;
    }
    if k == 0 {
        assert(!exists|i: int| 0 < i && is_last_dot(n@, i));
        return n.clone();
    }
    let d = k - 1;
    assert(is_last_dot(n@, d as int));
    assert forall|i: int| is_last_dot(n@, i) implies i == d by {
        if i < d {
            assert(n@[d as int] == '.');
        } else if i > d {
            assert(n@[i] == '.');
        }
    }
    if d == 0 {
        assert(!exists|i: int| 0 < i && is_last_dot(n@, i));
        return n.clone();
    }
    let mut r: Vec<char> = Vec::new();
    let mut i: usize = 0;
    while i < d
        invariant
            d < n.len(),
            i <= d,
            r@ == n@.take(i as int),
        decreases d - i,
    {
        r.push(n[i]);
        i = i + 1;
        assert(r@ =~= n@.take(i as int));
    }
    r
}

/// The file name of `p` on `os` without its extension, if `p` names a
/// file.
pub fn file_stem(p: &str, os: TargetOs) -> (r: Option<String>)
    ensures
        match r {
            Some(s) => path_file_stem(p@, os) == Some(s@),
            None => path_file_stem(p@, os) is None,
        },
{
    match file_name(p, os) {
        None => None,
        Some(n) => {
            let nv = chars_of(n.as_str());
            let sv = stem_of_name(&nv);
            Some(string_of(&sv))
        },
    }
}


/// Joining puts the component at the end: on every platform, `base` with
/// `comp` pushed onto it ends with `comp`.
pub proof fn join_ends_with_component(base: Seq<char>, comp: Seq<char>, os: TargetOs)
    ensures
        crate::text::ends_with_seq(path_join(base, comp, os), comp),
{
    let r = path_join(base, comp, os);
    assert(r.len() >= comp.len());
    assert(r.skip(r.len() - comp.len()) =~= comp);
}

} // verus!
