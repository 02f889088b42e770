//! Which vault paths each engine handles: exclusion patterns, config
//! directories and file extensions.

use vstd::prelude::*;
use crate::paths::{chars_contain, chars_end_with, chars_start_with, has_infix, has_prefix, has_suffix, push_chars};
use crate::protocol::codec::index_of;
use crate::text::{chars_slice, chars_to_string, str_chars};

verus! {

/// The first component of a `/`-separated path (the whole path when it has no `/`).
pub open spec fn first_component(path: Seq<char>) -> Seq<char> {
    match index_of(path, '/') {
        Some(i) => path.take(i),
        None => path,
    }
}

/// Whether the first component of the path starts with a dot.
pub open spec fn spec_dot_prefixed(path: Seq<char>) -> bool {
    has_prefix(first_component(path), seq!['.'])
}

/// Whether `pattern` is a directory pattern `DIR/**` that `rel` lies under
/// (`rel` starts with `DIR`).
pub open spec fn dir_pattern_matches(rel: Seq<char>, pattern: Seq<char>) -> bool {
    has_suffix(pattern, "/**"@) && {
        let dir = pattern.take(pattern.len() - 3);
        has_prefix(rel, dir) || has_prefix(rel, dir.push('/'))
    }
}

/// Whether `pattern` is an extension pattern `*.EXT` that `rel` matches:
/// `rel` ends with `.EXT` or contains `.EXT.` (a transient copy such as
/// `note.md.tmp.w_3o8rmv`).
pub open spec fn ext_pattern_matches(rel: Seq<char>, pattern: Seq<char>) -> bool {
    has_prefix(pattern, "*."@) && {
        let suffix = pattern.skip(1);
        has_suffix(rel, suffix) || has_infix(rel, suffix.push('.'))
    }
}

/// Whether some pattern excludes `rel`.
pub open spec fn matches_some_pattern(rel: Seq<char>, patterns: Seq<Seq<char>>) -> bool {
    exists|i: int| 0 <= i < patterns.len() && (dir_pattern_matches(rel, #[trigger] patterns[i]) || ext_pattern_matches(rel, patterns[i]))
}

/// The extension of the last component of a path (`Path::extension`): what
/// follows its last dot, when that dot is not the component's first character;
/// `None` for `..` and for names without such a dot.
pub open spec fn spec_extension(path: Seq<char>) -> Option<Seq<char>> {
    let name = last_component(path);
    match last_index_of(name, '.') {
        Some(i) => if i == 0 || name == ".."@ { None } else { Some(name.skip(i + 1)) },
        None => None,
    }
}

/// The part of a path after its last `/` (the whole path when it has none).
pub open spec fn last_component(path: Seq<char>) -> Seq<char> {
    match last_index_of(path, '/') {
        Some(i) => path.skip(i + 1),
        None => path,
    }
}

/// Position of the last occurrence of `c`, if any.
pub open spec fn last_index_of(s: Seq<char>, c: char) -> Option<int>
    decreases s.len(),
{
    if s.len() == 0 {
        None
    } else if s.last() == c {
        Some(s.len() - 1)
    } else {
        last_index_of(s.drop_last(), c)
    }
}

/// Position of the first `c` in `v`, if any.
pub fn find_char(v: &Vec<char>, c: char) -> (r: Option<usize>)
    ensures
        match r {
            Some(i) => index_of(v@, c) == Some(i as int) && i < v@.len(),
            None => index_of(v@, c) is None,
        },
{
    let mut i: usize = 0;
    while i < v.len()
        invariant
            i <= v@.len(),
            index_of(v@, c) == crate::protocol::codec::index_of_from(v@, c, i as int),
        decreases v@.len() - i,
    {
        if v[i] == c {
            return Some(i);
        }
        i += 1;
    }
    None
}

/// Position of the last `c` in `v`, if any.
pub fn find_last_char(v: &Vec<char>, c: char) -> (r: Option<usize>)
    ensures
        match r {
            Some(i) => last_index_of(v@, c) == Some(i as int) && i < v@.len(),
            None => last_index_of(v@, c) is None,
        },
{
    let mut j: usize = v.len();
    proof {
        assert(v@.take(v@.len() as int) =~= v@);
    }
    while j > 0
        invariant
            j <= v@.len(),
            last_index_of(v@, c) == last_index_of(v@.take(j as int), c),
        decreases j,
    {
        if v[j - 1] == c {
            return Some(j - 1);
        }
        proof {
            assert(v@.take(j as int).drop_last() =~= v@.take(j - 1));
        }
        j -= 1;
    }
    None
}

/// The first component of a `/`-separated path.
pub fn first_component_of(path: &str) -> (r: String)
    ensures
        r@ == first_component(path@),
{
    let v = str_chars(path);
    match find_char(&v, '/') {
        Some(i) => chars_to_string(&chars_slice(&v, 0, i)),
        None => chars_to_string(&v),
    }
}

/// Whether the first component of the path starts with a dot.
pub fn is_dot_prefixed_path(path: &str) -> (r: bool)
    ensures
        r == spec_dot_prefixed(path@),
{
    let first = str_chars(first_component_of(path).as_str());
    let mut dot: Vec<char> = Vec::new();
    dot.push('.');
    chars_start_with(&first, &dot)
}

/// Whether `pattern` excludes `rel` (see [`dir_pattern_matches`] and
/// [`ext_pattern_matches`]).
pub fn pattern_excludes(rel: &Vec<char>, pattern: &str) -> (r: bool)
    ensures
        r == (dir_pattern_matches(rel@, pattern@) || ext_pattern_matches(rel@, pattern@)),
{
    proof {
        reveal_strlit("/**");
        reveal_strlit("*.");
    }
    let p = str_chars(pattern);
    let dir_suffix = str_chars("/**");
    if chars_end_with(&p, &dir_suffix) {
        let dir = chars_slice(&p, 0, p.len() - 3);
        let mut dir_slash = chars_slice(&p, 0, p.len() - 3);
        dir_slash.push('/');
        proof {
            assert(p@.subrange(0, p@.len() - 3) =~= p@.take(p@.len() - 3));
        }
        if chars_start_with(rel, &dir) || chars_start_with(rel, &dir_slash) {
            return true;
        }
    }
    let star_dot = str_chars("*.");
    if chars_start_with(&p, &star_dot) {
        let suffix = chars_slice(&p, 1, p.len());
        let mut suffix_dot = chars_slice(&p, 1, p.len());
        suffix_dot.push('.');
        proof {
            assert(p@.subrange(1, p@.len() as int) =~= p@.skip(1));
        }
        if chars_end_with(rel, &suffix) || chars_contain(rel, &suffix_dot) {
            return true;
        }
    }
    false
}

/// Whether some pattern in `patterns` excludes `rel`.
pub fn excluded_by_patterns(rel: &Vec<char>, patterns: &Vec<String>) -> (r: bool)
    ensures
        r == matches_some_pattern(rel@, patterns@.map_values(|s: String| s@)),
{
    let ghost ps = patterns@.map_values(|s: String| s@);
    let mut i: usize = 0;
    while i < patterns.len()
        invariant
            i <= patterns@.len(),
            ps == patterns@.map_values(|s: String| s@),
            forall|k: int| 0 <= k < i ==> !(dir_pattern_matches(rel@, #[trigger] ps[k]) || ext_pattern_matches(rel@, ps[k])),
        decreases patterns@.len() - i,
    {
        if pattern_excludes(rel, patterns[i].as_str()) {
            proof {
                assert(ps[i as int] == patterns@[i as int]@);
            }
            return true;
        }
        proof {
            assert(ps[i as int] == patterns@[i as int]@);
        }
        i += 1;
    }
    false
}

/// The extension of the last component of a path (see [`spec_extension`]).
pub fn extension_of(path: &str) -> (r: Option<String>)
    ensures
        match r {
            Some(e) => spec_extension(path@) == Some(e@),
            None => spec_extension(path@) is None,
        },
{
    proof {
        reveal_strlit("..");
    }
    let v = str_chars(path);
    let name = match find_last_char(&v, '/') {
        Some(i) => {
            proof {
                assert(v@.subrange(i + 1, v@.len() as int) =~= v@.skip(i + 1));
            }
            chars_slice(&v, i + 1, v.len())
        },
        None => chars_slice(&v, 0, v.len()),
    };
    proof {
        assert(v@.subrange(0, v@.len() as int) =~= v@);
        assert(name@ == last_component(path@));
    }
    match find_last_char(&name, '.') {
        Some(i) => {
            let is_dotdot = name.len() == 2 && name[0] == '.' && name[1] == '.';
            proof {
                if name@.len() == 2 && name@[0] == '.' && name@[1] == '.' {
                    assert(name@ =~= ".."@);
                }
                if is_dotdot {
                    assert(name@ == ".."@);
                } else {
                    assert(name@ != ".."@);
                }
                assert(name@.subrange(i + 1, name@.len() as int) =~= name@.skip(i + 1));
            }
            if i == 0 || is_dotdot {
                None
            } else {
                Some(chars_to_string(&chars_slice(&name, i + 1, name.len())))
            }
        },
        None => None,
    }
}

} // verus!
