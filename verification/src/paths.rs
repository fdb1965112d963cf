//! Unix path arithmetic on strings, with the meaning that `std::path` gives
//! it: joining, the file name of a path, its extension and a changed extension.
use vstd::prelude::*;

use crate::text::{chars_of, string_from_range};

verus! {

/// Position of the last `c` in `s`, or -1 when there is none.
pub open spec fn last_index(s: Seq<char>, c: char) -> int
    decreases s.len(),
{
    if s.len() == 0 {
        -1
    } else if s.last() == c {
        s.len() - 1
    } else {
        last_index(s.drop_last(), c)
    }
}

/// The bounds of `last_index`, and that it points at `c` with no `c` after it.
pub proof fn lemma_last_index(s: Seq<char>, c: char)
    ensures
        -1 <= last_index(s, c) < s.len(),
        last_index(s, c) >= 0 ==> s[last_index(s, c)] == c,
        forall|k: int| last_index(s, c) < k < s.len() ==> s[k] != c,
    decreases s.len(),
{
    if s.len() > 0 && s.last() != c {
        lemma_last_index(s.drop_last(), c);
        assert forall|k: int| last_index(s, c) < k < s.len() implies s[k] != c by {
            if k < s.len() - 1 {
                assert(s[k] == s.drop_last()[k]);
            }
        }
    }
}

/// `base` joined with `rel` as `Path::join` does it on Unix: an absolute
/// `rel` replaces `base`; otherwise a separator is put between them unless
/// `base` is empty or already ends with one.
pub open spec fn joined(base: Seq<char>, rel: Seq<char>) -> Seq<char> {
    if rel.len() > 0 && rel[0] == '/' {
        rel
    } else if base.len() == 0 || base.last() == '/' {
        base + rel
    } else {
        base + seq!['/'] + rel
    }
}

/// Joins `rel` onto `base`.
pub fn join_path(base: &str, rel: &str) -> (r: String)
    ensures
        r@ == joined(base@, rel@),
{
    let b = chars_of(base);
    let rl = chars_of(rel);
    if rl.len() > 0 && rl[0] == '/' {
        return String::from_str(rel);
    }
    let mut r = String::from_str(base);
    if b.len() > 0 && b[b.len() - 1] != '/' {
        proof {
            reveal_strlit("/");
        }
        r.append("/");
    }
    r.append(rel);
    proof {
        reveal_strlit("/");
        assert(r@ =~= joined(base@, rel@));
    }
    r
}

/// Where the file name of `p` stands in it, as `Path::file_name` finds it:
/// the last component, where empty and `.` components are skipped; a path
/// that ends in `..`, or has no such component, has no file name.
pub open spec fn file_name_bounds(p: Seq<char>) -> Option<(int, int)>
    decreases p.len(),
{
    let j = last_index(p, '/');
    let seg = p.subrange(j + 1, p.len() as int);
    if seg.len() == 0 || seg == seq!['.'] {
        if j < 0 {
            None
        } else {
            proof {
                lemma_last_index(p, '/');
            }
            file_name_bounds(p.take(j))
        }
    } else if seg == seq!['.', '.'] {
        None
    } else {
        Some((j + 1, p.len() as int))
    }
}

/// The file name of `p`, if it has one.
pub open spec fn file_name(p: Seq<char>) -> Option<Seq<char>> {
    match file_name_bounds(p) {
        Some((s, e)) => Some(p.subrange(s, e)),
        None => None,
    }
}

/// The extension of `p` as `Path::extension` gives it: what follows the last
/// `.` of the file name, unless that dot opens the name (`.bashrc`).
pub open spec fn extension(p: Seq<char>) -> Option<Seq<char>> {
    match file_name(p) {
        Some(name) => {
            let k = last_index(name, '.');
            if k <= 0 {
                None
            } else {
                Some(name.subrange(k + 1, name.len() as int))
            }
        },
        None => None,
    }
}

/// Where the stem of the file name ends (the name less its extension).
pub open spec fn stem_end(p: Seq<char>) -> Option<int> {
    match file_name_bounds(p) {
        Some((s, e)) => {
            let k = last_index(p.subrange(s, e), '.');
            if k <= 0 {
                Some(e)
            } else {
                Some(s + k)
            }
        },
        None => None,
    }
}

/// `p` with its extension replaced by `ext`, as `PathBuf::set_extension`
/// does: everything after the stem goes, then `.` and `ext` follow unless
/// `ext` is empty; a path without a file name stays as it is.
pub open spec fn with_extension(p: Seq<char>, ext: Seq<char>) -> Seq<char> {
    match stem_end(p) {
        Some(t) => p.take(t) + if ext.len() > 0 {
            seq!['.'] + ext
        } else {
            Seq::empty()
        },
        None => p,
    }
}

/// The last position of `c` in `v` between `start` and `end`.
fn last_index_between(v: &Vec<char>, start: usize, end: usize, c: char) -> (r: Option<usize>)
    requires
        start <= end <= v.len(),
    ensures
        match r {
            Some(k) => start <= k < end && last_index(v@.subrange(start as int, end as int), c)
                == k - start,
            None => last_index(v@.subrange(start as int, end as int), c) == -1,
        },
{
    let mut j = end;
    while j > start && v[j - 1] != c
        invariant
            start <= j <= end <= v.len(),
            last_index(v@.subrange(start as int, end as int), c) == last_index(
                v@.subrange(start as int, j as int),
                c,
            ),
        decreases j - start,
    {
        assert(v@.subrange(start as int, j as int).drop_last() =~= v@.subrange(
            start as int,
            j - 1,
        ));
        j -= 1;
    }
    if j == start {
        None
    } else {
        Some(j - 1)
    }
}

/// Where the file name of the path `v` stands.
fn file_name_range(v: &Vec<char>) -> (r: Option<(usize, usize)>)
    ensures
        match r {
            Some((a, b)) => a <= b <= v.len() && file_name_bounds(v@) == Some((a as int, b as int)),
            None => file_name_bounds(v@) is None,
        },
{
    let mut end = v.len();
    assert(v@.take(end as int) =~= v@);
    loop
        invariant
            end <= v.len(),
            file_name_bounds(v@) == file_name_bounds(v@.take(end as int)),
        decreases end,
    {
        let ghost p = v@.take(end as int);
        assert(v@.subrange(0, end as int) =~= p);
        let last = last_index_between(v, 0, end, '/');
        let seg_start: usize = match last {
            Some(k) => k + 1,
            None => 0,
        };
        let ghost j = last_index(p, '/');
        assert(p.subrange(j + 1, p.len() as int) =~= v@.subrange(seg_start as int, end as int));
        let seg_len = end - seg_start;
        let is_dot = seg_len == 1 && v[seg_start] == '.';
        let is_dot_dot = seg_len == 2 && v[seg_start] == '.' && v[seg_start + 1] == '.';
        proof {
            let seg = v@.subrange(seg_start as int, end as int);
            if seg_len == 1 {
                if v[seg_start as int] == '.' {
                    assert(seg =~= seq!['.']);
                } else {
                    assert(seg[0] != seq!['.'][0]);
                }
            } else {
                assert(seg.len() != seq!['.'].len());
            }
            if seg_len == 2 {
                if v[seg_start as int] == '.' && v[seg_start + 1] == '.' {
                    assert(seg =~= seq!['.', '.']);
                } else if v[seg_start as int] != '.' {
                    assert(seg[0] != seq!['.', '.'][0]);
                } else {
                    assert(seg[1] != seq!['.', '.'][1]);
                }
            } else {
                assert(seg.len() != seq!['.', '.'].len());
            }
        }
        if seg_len == 0 || is_dot {
            match last {
                None => {
                    return None;
                },
                Some(k) => {
                    assert(p.take(j) =~= v@.take(k as int));
                    end = k;
                },
            }
        } else if is_dot_dot {
            return None;
        } else {
            return Some((seg_start, end));
        }
    }
}

/// The file name of a path, if it has one.
pub fn file_name_of(path: &str) -> (r: Option<String>)
    ensures
        match r {
            Some(name) => file_name(path@) == Some(name@),
            None => file_name(path@) is None,
        },
{
    let v = chars_of(path);
    match file_name_range(&v) {
        Some((a, b)) => Some(string_from_range(path, &v, a, b)),
        None => None,
    }
}

/// The extension of a path, if it has one.
pub fn extension_of(path: &str) -> (r: Option<String>)
    ensures
        match r {
            Some(ext) => extension(path@) == Some(ext@),
            None => extension(path@) is None,
        },
{
    let v = chars_of(path);
    match file_name_range(&v) {
        Some((a, b)) => {
            let dot = last_index_between(&v, a, b, '.');
            match dot {
                Some(k) => {
                    if k == a {
                        None
                    } else {
                        let r = string_from_range(path, &v, k + 1, b);
                        assert(path@.subrange(a as int, b as int).subrange(
                            k + 1 - a,
                            b - a,
                        ) =~= path@.subrange(k + 1, b as int));
                        Some(r)
                    }
                },
                None => None,
            }
        },
        None => None,
    }
}

/// The path with its extension replaced by `ext`.
pub fn replace_extension(path: &str, ext: &str) -> (r: String)
    ensures
        r@ == with_extension(path@, ext@),
{
    let v = chars_of(path);
    match file_name_range(&v) {
        Some((a, b)) => {
            let dot = last_index_between(&v, a, b, '.');
            let t = match dot {
                Some(k) => if k == a {
                    b
                } else {
                    k
                },
                None => b,
            };
            let mut r = string_from_range(path, &v, 0, t);
            if ext.unicode_len() > 0 {
                proof {
                    reveal_strlit(".");
                }
                r.append(".");
                r.append(ext);
            }
            proof {
                reveal_strlit(".");
                assert(stem_end(path@) == Some(t as int));
                assert(r@ =~= with_extension(path@, ext@));
            }
            r
        },
        None => String::from_str(path),
    }
}

/// `q` without trailing separators, keeping a lone root `/`.
pub open spec fn strip_trailing_seps(q: Seq<char>) -> Seq<char>
    decreases q.len(),
{
    if q.len() > 1 && q.last() == '/' {
        strip_trailing_seps(q.drop_last())
    } else {
        q
    }
}

/// The directory that holds the file name of `p`: the text before the file
/// name, without trailing separators (the root stays `/`); a path without a
/// file name has none.
pub open spec fn parent_dir(p: Seq<char>) -> Option<Seq<char>> {
    match file_name_bounds(p) {
        Some((s, _)) => Some(strip_trailing_seps(p.take(s))),
        None => None,
    }
}

/// The directory that holds the file name of `path`, and that file name.
pub fn split_dir(path: &str) -> (r: Option<(String, String)>)
    ensures
        match r {
            Some((dir, name)) => parent_dir(path@) == Some(dir@) && file_name(path@) == Some(
                name@,
            ),
            None => parent_dir(path@) is None && file_name(path@) is None,
        },
{
    let v = chars_of(path);
    match file_name_range(&v) {
        Some((a, b)) => {
            let mut j = a;
            assert(path@.take(a as int) =~= path@.subrange(0, a as int));
            while j > 1 && v[j - 1] == '/'
                invariant
                    v@ == path@,
                    j <= a <= v.len(),
                    strip_trailing_seps(path@.take(a as int)) == strip_trailing_seps(
                        path@.subrange(0, j as int),
                    ),
                decreases j,
            {
                assert(path@.subrange(0, j as int).drop_last() =~= path@.subrange(0, j - 1));
                j -= 1;
            }
            let dir = string_from_range(path, &v, 0, j);
            let name = string_from_range(path, &v, a, b);
            Some((dir, name))
        },
        None => None,
    }
}

/// The file name lies within the path.
pub proof fn lemma_file_name_bounds(p: Seq<char>)
    ensures
        file_name_bounds(p) matches Some((s, e)) ==> 0 <= s <= e <= p.len(),
    decreases p.len(),
{
    lemma_last_index(p, '/');
    let j = last_index(p, '/');
    let seg = p.subrange(j + 1, p.len() as int);
    if seg.len() == 0 || seg == seq!['.'] {
        if j >= 0 {
            lemma_file_name_bounds(p.take(j));
        }
    }
}

} // verus!
