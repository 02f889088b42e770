//! Text operations on `/`-separated paths: prefixes, suffixes, infixes,
//! relative paths and joining.

use vstd::prelude::*;
use crate::text::{chars_to_string, str_chars};

verus! {

/// `s` begins with `p`.
pub open spec fn has_prefix(s: Seq<char>, p: Seq<char>) -> bool {
    p.len() <= s.len() && s.subrange(0, p.len() as int) == p
}

/// `s` ends with `p`.
pub open spec fn has_suffix(s: Seq<char>, p: Seq<char>) -> bool {
    p.len() <= s.len() && s.subrange(s.len() - p.len(), s.len() as int) == p
}

/// `p` occurs in `s` starting at `i`.
pub open spec fn occurs_at(s: Seq<char>, p: Seq<char>, i: int) -> bool {
    0 <= i && i + p.len() <= s.len() && s.subrange(i, i + p.len()) == p
}

/// `p` occurs somewhere in `s`.
pub open spec fn has_infix(s: Seq<char>, p: Seq<char>) -> bool {
    exists|i: int| occurs_at(s, p, i)
}

/// Whether `s[i..i + p.len()]` equals `p`.
fn matches_at(s: &Vec<char>, p: &Vec<char>, i: usize) -> (r: bool)
    requires
        i + p@.len() <= s@.len(),
    ensures
        r == (s@.subrange(i as int, i + p@.len()) == p@),
{
    let mut k: usize = 0;
    while k < p.len()
        invariant
            i + p@.len() <= s.len(),
            k <= p@.len(),
            forall|j: int| 0 <= j < k ==> s@[i + j] == p@[j],
        decreases p@.len() - k,
    {
        if s[i + k] != p[k] {
            proof {
                assert(s@.subrange(i as int, i + p@.len())[k as int] != p@[k as int]);
            }
            return false;
        }
        k += 1;
    }
    proof {
        assert(s@.subrange(i as int, i + p@.len()) =~= p@);
    }
    true
}

/// `s` begins with `p`, on character vectors.
pub fn chars_start_with(s: &Vec<char>, p: &Vec<char>) -> (r: bool)
    ensures
        r == has_prefix(s@, p@),
{
    if p.len() > s.len() {
        return false;
    }
    matches_at(s, p, 0)
}

/// `s` ends with `p`, on character vectors.
pub fn chars_end_with(s: &Vec<char>, p: &Vec<char>) -> (r: bool)
    ensures
        r == has_suffix(s@, p@),
{
    if p.len() > s.len() {
        return false;
    }
    matches_at(s, p, s.len() - p.len())
}

/// `p` occurs in `s`, on character vectors.
pub fn chars_contain(s: &Vec<char>, p: &Vec<char>) -> (r: bool)
    ensures
        r == has_infix(s@, p@),
{
    if p.len() > s.len() {
        proof {
            assert forall|i: int| !occurs_at(s@, p@, i) by {}
        }
        return false;
    }
    let last = s.len() - p.len();
    let mut i: usize = 0;
    loop
        invariant
            last == s@.len() - p@.len(),
            i <= last,
            forall|j: int| 0 <= j < i ==> !occurs_at(s@, p@, j),
        decreases last - i,
    {
        if matches_at(s, p, i) {
            proof {
                assert(occurs_at(s@, p@, i as int));
            }
            return true;
        }
        if i == last {
            proof {
                assert forall|j: int| !occurs_at(s@, p@, j) by {
                    if 0 <= j < i {
                    }
                }
            }
            return false;
        }
        i += 1;
    }
}

/// `s` begins with `p`.
pub fn starts_with(s: &str, p: &str) -> (r: bool)
    ensures
        r == has_prefix(s@, p@),
{
    chars_start_with(&str_chars(s), &str_chars(p))
}

/// `s` ends with `p`.
pub fn ends_with(s: &str, p: &str) -> (r: bool)
    ensures
        r == has_suffix(s@, p@),
{
    chars_end_with(&str_chars(s), &str_chars(p))
}

/// `p` occurs in `s`.
pub fn contains(s: &str, p: &str) -> (r: bool)
    ensures
        r == has_infix(s@, p@),
{
    chars_contain(&str_chars(s), &str_chars(p))
}

/// `path` relative to the directory `dir`: what follows `dir` and a `/`
/// (or just `dir` when it already ends with `/`); `None` when `path` is not
/// under `dir`.
pub open spec fn relative_under(path: Seq<char>, dir: Seq<char>) -> Option<Seq<char>> {
    if dir.len() > 0 && dir.last() == '/' && has_prefix(path, dir) {
        Some(path.skip(dir.len() as int))
    } else if has_prefix(path, dir.push('/')) {
        Some(path.skip(dir.len() as int + 1))
    } else {
        None
    }
}

/// `rel` appended to `base` with one `/` between them (just `rel` when
/// `base` is empty).
pub open spec fn join_under(base: Seq<char>, rel: Seq<char>) -> Seq<char> {
    if base.len() == 0 {
        rel
    } else if base.last() == '/' {
        base + rel
    } else {
        base + seq!['/'] + rel
    }
}

/// `path` relative to the directory `dir`, if it lies under it.
pub fn relative_to(path: &str, dir: &str) -> (r: Option<String>)
    ensures
        match r {
            Some(s) => relative_under(path@, dir@) == Some(s@),
            None => relative_under(path@, dir@) is None,
        },
{
    let p = str_chars(path);
    let mut d = str_chars(dir);
    let direct = d.len() > 0 && d[d.len() - 1] == '/' && chars_start_with(&p, &d);
    if !direct {
        d.push('/');
        if !chars_start_with(&p, &d) {
            return None;
        }
    }
    let skip: usize = d.len();
    let mut out: Vec<char> = Vec::new();
    let mut i: usize = skip;
    while i < p.len()
        invariant
            skip <= i <= p@.len(),
            out@ == p@.subrange(skip as int, i as int),
        decreases p@.len() - i,
    {
        out.push(p[i]);
        i += 1;
        proof {
            assert(out@ =~= p@.subrange(skip as int, i as int));
        }
    }
    proof {
        assert(out@ =~= p@.skip(skip as int));
    }
    Some(chars_to_string(&out))
}

/// Appends the characters of `s` to `out`.
pub fn push_chars(out: &mut Vec<char>, s: &Vec<char>)
    ensures
        final(out)@ == old(out)@ + s@,
{
    let mut i: usize = 0;
    while i < s.len()
        invariant
            i <= s@.len(),
            out@ == old(out)@ + s@.subrange(0, i as int),
        decreases s@.len() - i,
    {
        out.push(s[i]);
        i += 1;
        proof {
            assert(out@ =~= old(out)@ + s@.subrange(0, i as int));
        }
    }
    proof {
        assert(s@.subrange(0, s@.len() as int) =~= s@);
    }
}

/// `rel` appended to `base` with one `/` between them.
pub fn join_path(base: &str, rel: &str) -> (r: String)
    ensures
        r@ == join_under(base@, rel@),
{
    let b = str_chars(base);
    let rc = str_chars(rel);
    let mut out: Vec<char> = Vec::new();
    if b.len() > 0 {
        push_chars(&mut out, &b);
        if b[b.len() - 1] != '/' {
            out.push('/');
        }
    }
    push_chars(&mut out, &rc);
    proof {
        if b@.len() == 0 {
            assert(out@ =~= rel@);
        } else if b@.last() == '/' {
            assert(out@ =~= base@ + rel@);
        } else {
            assert(out@ =~= base@ + seq!['/'] + rel@);
        }
    }
    chars_to_string(&out)
}

/// A path relative to the vault directory: empty for the vault itself (with
/// or without a trailing `/` on either side), what follows the vault and a
/// `/` for a path under it, `None` otherwise.  Paths are compared as text, so
/// unlike `Path::strip_prefix` an empty or `.` component is not skipped.
pub open spec fn vault_relative(path: Seq<char>, vault: Seq<char>) -> Option<Seq<char>> {
    if path == vault || (vault.len() > 1 && vault.last() == '/' && path == vault.drop_last()) {
        Some(Seq::empty())
    } else {
        relative_under(path, vault)
    }
}

/// A path relative to the vault directory, if it is the vault or lies under it.
pub fn strip_vault_prefix(path: &str, vault: &str) -> (r: Option<String>)
    ensures
        match r {
            Some(s) => vault_relative(path@, vault@) == Some(s@),
            None => vault_relative(path@, vault@) is None,
        },
{
    if crate::text::str_eq(path, vault) {
        return Some(String::new());
    }
    let v = str_chars(vault);
    let p = str_chars(path);
    if v.len() > 1 && v[v.len() - 1] == '/' && p.len() == v.len() - 1 && chars_start_with(&v, &p) {
        proof {
            assert(v@.subrange(0, p@.len() as int) =~= v@.drop_last());
        }
        return Some(String::new());
    }
    proof {
        if v@.len() > 1 && v@.last() == '/' && path@ == vault@.drop_last() {
            assert(v@.subrange(0, p@.len() as int) =~= p@);
        }
    }
    relative_to(path, vault)
}

} // verus!
