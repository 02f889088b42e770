//! File watcher logic: which paths are ignored, which files are known, and
//! how the file system's raw notifications become watch events.
//!
//! The notification source itself (the `notify` crate), its channels and the
//! checks of what exists on disk belong to the application, which hands each
//! notification here with the facts it found about its paths.

use vstd::prelude::*;
use crate::debounce::WatchEventView;
use crate::paths::{
    chars_contain, chars_end_with, chars_start_with, has_infix, has_prefix, has_suffix, join_path, join_under,
    strip_vault_prefix, vault_relative,
};
use crate::text::{chars_slice, str_chars, str_eq};

verus! {

/// Events emitted by the file watcher.
#[derive(Debug, Clone, PartialEq, Eq)]
pub enum WatchEvent {
    /// A new file was created.
    Created(String),
    /// An existing file was modified.
    Modified(String),
    /// A file was deleted.
    Deleted(String),
    /// A file was moved or renamed.
    Moved { from: String, to: String },
}

impl View for WatchEvent {
    type V = WatchEventView;

    open spec fn view(&self) -> WatchEventView {
        match self {
            WatchEvent::Created(p) => WatchEventView::Created(p@),
            WatchEvent::Modified(p) => WatchEventView::Modified(p@),
            WatchEvent::Deleted(p) => WatchEventView::Deleted(p@),
            WatchEvent::Moved { from, to } => WatchEventView::Moved(from@, to@),
        }
    }
}

/// Whether `path` matches a watcher pattern: `PREFIX/**` matches `PREFIX`
/// and what starts with it; `*SUFFIX` matches what ends with `SUFFIX` or
/// contains `SUFFIX.`; `PREFIX*` matches what starts with `PREFIX`; any other
/// pattern matches itself.
pub open spec fn spec_matches_pattern(path: Seq<char>, pattern: Seq<char>) -> bool {
    if has_suffix(pattern, "/**"@) {
        let prefix = pattern.take(pattern.len() - 3);
        has_prefix(path, prefix) || path == prefix
    } else if pattern.len() > 0 && pattern[0] == '*' {
        let suffix = pattern.skip(1);
        has_suffix(path, suffix) || has_infix(path, suffix.push('.'))
    } else if pattern.len() > 0 && pattern.last() == '*' {
        has_prefix(path, pattern.drop_last())
    } else {
        path == pattern
    }
}

/// The watcher's built-in exclusions of a vault-relative path: `.git` and
/// `.trash` with what is under them, the local state file, Finder metadata,
/// temporary files of atomic writes and editors' backups.
pub open spec fn builtin_excluded(rel: Seq<char>) -> bool {
    has_prefix(rel, ".git/"@) || rel == ".git"@ || has_prefix(rel, ".trash/"@) || rel == ".trash"@
        || rel == ".fns_state.json"@ || rel == ".DS_Store"@ || has_suffix(rel, "/.DS_Store"@)
        || has_prefix(rel, ".tmp"@) || has_suffix(rel, ".tmp"@) || has_infix(rel, ".tmp."@) || has_infix(rel, ".~#"@)
}

/// The path that exclusion looks at: relative to the vault when under it,
/// the path itself otherwise.
pub open spec fn watch_rel(path: Seq<char>, vault: Seq<char>) -> Seq<char> {
    match vault_relative(path, vault) {
        Some(r) => r,
        None => path,
    }
}

/// Whether the watcher ignores `path`.
pub open spec fn spec_watch_excluded(path: Seq<char>, vault: Seq<char>, patterns: Seq<Seq<char>>) -> bool {
    let rel = watch_rel(path, vault);
    (exists|i: int| 0 <= i < patterns.len() && spec_matches_pattern(rel, #[trigger] patterns[i])) || builtin_excluded(rel)
}

/// File watcher state: the vault, the exclude patterns and the files known
/// to be in the vault (vault-relative).
pub struct FileWatcher {
    vault_path: String,
    exclude_patterns: Vec<String>,
    known_files: Vec<String>,
}

impl FileWatcher {
    /// The vault directory.
    pub closed spec fn spec_vault(&self) -> Seq<char> {
        self.vault_path@
    }

    /// The exclude patterns.
    pub closed spec fn spec_patterns(&self) -> Seq<Seq<char>> {
        self.exclude_patterns@.map_values(|s: String| s@)
    }

    /// The known files, vault-relative, in the order they became known.
    pub closed spec fn known(&self) -> Seq<Seq<char>> {
        self.known_files@.map_values(|s: String| s@)
    }

    /// A watcher for `vault_path` ignoring `exclude_patterns`, knowing no file yet.
    pub fn new(vault_path: String, exclude_patterns: Vec<String>) -> (w: Self)
        ensures
            w.spec_vault() == vault_path@,
            w.spec_patterns() == exclude_patterns@.map_values(|s: String| s@),
            w.known() == Seq::<Seq<char>>::empty(),
    {
        let w = FileWatcher { vault_path, exclude_patterns, known_files: Vec::new() };
        proof {
            assert(w.known() =~= Seq::<Seq<char>>::empty());
        }
        w
    }

    /// The vault directory.
    pub fn vault_path(&self) -> (r: &String)
        ensures
            r@ == self.spec_vault(),
    {
        &self.vault_path
    }

    /// Number of known files.
    pub fn known_count(&self) -> (r: usize)
        ensures
            r == self.known().len(),
    {
        self.known_files.len()
    }

    /// Whether `path` matches a watcher pattern (see [`spec_matches_pattern`]).
    pub fn matches_pattern(path: &str, pattern: &str) -> (r: bool)
        ensures
            r == spec_matches_pattern(path@, pattern@),
    {
        proof {
            reveal_strlit("/**");
        }
        let p = str_chars(path);
        let pat = str_chars(pattern);
        if chars_end_with(&pat, &str_chars("/**")) {
            let prefix = chars_slice(&pat, 0, pat.len() - 3);
            proof {
                assert(pat@.subrange(0, pat@.len() - 3) =~= pat@.take(pat@.len() - 3));
            }
            let eq = p.len() == prefix.len() && chars_start_with(&p, &prefix);
            proof {
                if p@.len() == prefix@.len() && crate::paths::has_prefix(p@, prefix@) {
                    assert(p@ =~= prefix@);
                }
                if p@ == prefix@ {
                    assert(p@.subrange(0, p@.len() as int) =~= p@);
                }
            }
            return chars_start_with(&p, &prefix) || eq;
        }
        if pat.len() > 0 && pat[0] == '*' {
            let suffix = chars_slice(&pat, 1, pat.len());
            let mut suffix_dot = chars_slice(&pat, 1, pat.len());
            suffix_dot.push('.');
            proof {
                assert(pat@.subrange(1, pat@.len() as int) =~= pat@.skip(1));
            }
            return chars_end_with(&p, &suffix) || chars_contain(&p, &suffix_dot);
        }
        if pat.len() > 0 && pat[pat.len() - 1] == '*' {
            let prefix = chars_slice(&pat, 0, pat.len() - 1);
            proof {
                assert(pat@.subrange(0, pat@.len() - 1) =~= pat@.drop_last());
            }
            return chars_start_with(&p, &prefix);
        }
        str_eq(path, pattern)
    }

    /// Whether the watcher ignores `path` (see [`spec_watch_excluded`]).
    pub fn is_excluded(&self, path: &str) -> (r: bool)
        ensures
            r == spec_watch_excluded(path@, self.spec_vault(), self.spec_patterns()),
    {
        proof {
            reveal_strlit(".git/");
            reveal_strlit(".trash/");
            reveal_strlit("/.DS_Store");
            reveal_strlit(".tmp");
            reveal_strlit(".tmp.");
            reveal_strlit(".~#");
        }
        let rel: String = match strip_vault_prefix(path, self.vault_path.as_str()) {
            Some(r) => r,
            None => path.to_owned(),
        };
        let ghost pats = self.spec_patterns();
        let mut i: usize = 0;
        while i < self.exclude_patterns.len()
            invariant
                i <= self.exclude_patterns@.len(),
                pats == self.exclude_patterns@.map_values(|s: String| s@),
                rel@ == watch_rel(path@, self.vault_path@),
                forall|k: int| 0 <= k < i ==> !spec_matches_pattern(rel@, #[trigger] pats[k]),
            decreases self.exclude_patterns@.len() - i,
        {
            if Self::matches_pattern(rel.as_str(), self.exclude_patterns[i].as_str()) {
                proof {
                    assert(pats[i as int] == self.exclude_patterns@[i as int]@);
                }
                return true;
            }
            proof {
                assert(pats[i as int] == self.exclude_patterns@[i as int]@);
            }
            i += 1;
        }
        let r = rel.as_str();
        let v = str_chars(r);
        chars_start_with(&v, &str_chars(".git/")) || str_eq(r, ".git") || chars_start_with(&v, &str_chars(".trash/"))
            || str_eq(r, ".trash") || str_eq(r, ".fns_state.json") || str_eq(r, ".DS_Store")
            || chars_end_with(&v, &str_chars("/.DS_Store")) || chars_start_with(&v, &str_chars(".tmp"))
            || chars_end_with(&v, &str_chars(".tmp")) || chars_contain(&v, &str_chars(".tmp."))
            || chars_contain(&v, &str_chars(".~#"))
    }
}

/// The kinds of raw file system notifications, as the watcher tells them
/// apart.
#[derive(Debug, Clone, Copy, PartialEq, Eq, Structural)]
pub enum RawKind {
    /// Something was created.
    Create,
    /// Renamed: the paths are the new names.
    RenameTo,
    /// Renamed: the paths are the old names.
    RenameFrom,
    /// Renamed: the two paths are the old and the new name.
    RenameBoth,
    /// Renamed, without saying which side the paths are.
    RenameAny,
    /// Any other modification.
    OtherModify,
    /// A directory was removed.
    RemoveFolder,
    /// Anything else was removed.
    RemoveFile,
    /// An unspecified event (a move on some platforms).
    Any,
    /// Anything else (access and the like).
    Other,
}

/// A path of a raw notification, with what the file system showed of it
/// when the notification was handled.
#[derive(Debug, Clone, PartialEq, Eq)]
pub struct RawPath {
    pub path: String,
    pub exists: bool,
    pub is_file: bool,
}

/// A raw file system notification.
#[derive(Debug, Clone, PartialEq, Eq)]
pub struct RawEvent {
    pub kind: RawKind,
    pub paths: Vec<RawPath>,
}

/// A raw path as plain values: the path, whether it exists, whether it is a file.
pub open spec fn raw_view(p: RawPath) -> (Seq<char>, bool, bool) {
    (p.path@, p.exists, p.is_file)
}

/// Keeps the known files other than `r`.
pub open spec fn other_than(r: Seq<char>) -> spec_fn(Seq<char>) -> bool {
    |k: Seq<char>| k != r
}

/// The prefix of the files under a directory: the directory with a
/// trailing `/`.
pub open spec fn dir_prefix(dir: Seq<char>) -> Seq<char> {
    if dir.len() > 0 && dir.last() == '/' {
        dir
    } else {
        dir.push('/')
    }
}

/// Selects the known files under `dir` (or equal to it).
pub open spec fn under_dir(dir: Seq<char>) -> spec_fn(Seq<char>) -> bool {
    |k: Seq<char>| has_prefix(k, dir_prefix(dir)) || k == dir
}

/// Selects the known files not under `dir`.
pub open spec fn not_under_dir(dir: Seq<char>) -> spec_fn(Seq<char>) -> bool {
    |k: Seq<char>| !(has_prefix(k, dir_prefix(dir)) || k == dir)
}

/// The known files after `path` became known.
pub open spec fn spec_track(known: Seq<Seq<char>>, vault: Seq<char>, path: Seq<char>) -> Seq<Seq<char>> {
    match vault_relative(path, vault) {
        Some(r) => if known.contains(r) { known } else { known.push(r) },
        None => known,
    }
}

/// The known files after each of `files` that the watcher does not ignore
/// was made known, in order, starting from `known`.
pub open spec fn track_all(
    known: Seq<Seq<char>>,
    vault: Seq<char>,
    patterns: Seq<Seq<char>>,
    files: Seq<Seq<char>>,
) -> Seq<Seq<char>>
    decreases files.len(),
{
    if files.len() == 0 {
        known
    } else {
        let before = track_all(known, vault, patterns, files.drop_last());
        if spec_watch_excluded(files.last(), vault, patterns) {
            before
        } else {
            spec_track(before, vault, files.last())
        }
    }
}

/// The known files after `path` is no longer known.
pub open spec fn spec_untrack(known: Seq<Seq<char>>, vault: Seq<char>, path: Seq<char>) -> Seq<Seq<char>> {
    match vault_relative(path, vault) {
        Some(r) => known.filter(other_than(r)),
        None => known,
    }
}

/// The deletions reported for the known files under a removed directory.
pub open spec fn victim_events(victims: Seq<Seq<char>>, vault: Seq<char>) -> Seq<WatchEventView> {
    victims.map_values(|v: Seq<char>| WatchEventView::Deleted(join_under(vault, v)))
}

/// What one path of a notification of kind `kind` yields, and the known
/// files afterwards.
pub open spec fn path_step(
    kind: RawKind,
    vault: Seq<char>,
    patterns: Seq<Seq<char>>,
    known: Seq<Seq<char>>,
    p: (Seq<char>, bool, bool),
) -> (Seq<WatchEventView>, Seq<Seq<char>>) {
    let (path, exists, is_file) = p;
    let ex = spec_watch_excluded(path, vault, patterns);
    let none = (Seq::<WatchEventView>::empty(), known);
    match kind {
        RawKind::Create | RawKind::RenameTo => if !ex && is_file {
            (seq![WatchEventView::Created(path)], spec_track(known, vault, path))
        } else {
            none
        },
        RawKind::RenameFrom => if !ex {
            (Seq::empty(), spec_untrack(known, vault, path))
        } else {
            none
        },
        RawKind::RenameAny => if ex {
            none
        } else if exists && is_file {
            (seq![WatchEventView::Created(path)], spec_track(known, vault, path))
        } else {
            match vault_relative(path, vault) {
                Some(rel) => {
                    let victims = known.filter(under_dir(rel));
                    if victims.len() == 0 {
                        (seq![WatchEventView::Deleted(path)], spec_untrack(known, vault, path))
                    } else {
                        (victim_events(victims, vault), known.filter(not_under_dir(rel)))
                    }
                },
                None => none,
            }
        },
        RawKind::OtherModify => if !ex && exists {
            (seq![WatchEventView::Modified(path)], known)
        } else {
            none
        },
        RawKind::RemoveFolder => if ex {
            none
        } else {
            match vault_relative(path, vault) {
                Some(rel) => (victim_events(known.filter(under_dir(rel)), vault), known.filter(not_under_dir(rel))),
                None => none,
            }
        },
        RawKind::RemoveFile => if ex {
            none
        } else {
            (seq![WatchEventView::Deleted(path)], spec_untrack(known, vault, path))
        },
        _ => none,
    }
}

/// What the paths of a notification yield one after the other, and the
/// known files afterwards.
pub open spec fn fold_paths(
    kind: RawKind,
    vault: Seq<char>,
    patterns: Seq<Seq<char>>,
    known: Seq<Seq<char>>,
    paths: Seq<(Seq<char>, bool, bool)>,
) -> (Seq<WatchEventView>, Seq<Seq<char>>)
    decreases paths.len(),
{
    if paths.len() == 0 {
        (Seq::empty(), known)
    } else {
        let (e1, k1) = fold_paths(kind, vault, patterns, known, paths.drop_last());
        let (e2, k2) = path_step(kind, vault, patterns, k1, paths.last());
        (e1 + e2, k2)
    }
}

/// What a notification yields, and the known files afterwards: nothing when
/// every path is ignored; for a two-sided rename or an unspecified event with
/// two paths, a move (of a vanished source to an existing target, for the
/// latter) when neither side is ignored; otherwise what its paths yield one
/// after the other.
pub open spec fn spec_process(
    kind: RawKind,
    vault: Seq<char>,
    patterns: Seq<Seq<char>>,
    known: Seq<Seq<char>>,
    paths: Seq<(Seq<char>, bool, bool)>,
) -> (Seq<WatchEventView>, Seq<Seq<char>>) {
    let none = (Seq::<WatchEventView>::empty(), known);
    if forall|i: int| 0 <= i < paths.len() ==> spec_watch_excluded(#[trigger] paths[i].0, vault, patterns) {
        none
    } else {
        match kind {
            RawKind::RenameBoth => if paths.len() == 2 && !spec_watch_excluded(paths[0].0, vault, patterns)
                && !spec_watch_excluded(paths[1].0, vault, patterns) {
                (
                    seq![WatchEventView::Moved(paths[0].0, paths[1].0)],
                    spec_track(spec_untrack(known, vault, paths[0].0), vault, paths[1].0),
                )
            } else {
                none
            },
            RawKind::Any => if paths.len() == 2 && !paths[0].1 && paths[1].1 && !spec_watch_excluded(
                paths[0].0,
                vault,
                patterns,
            ) && !spec_watch_excluded(paths[1].0, vault, patterns) {
                (seq![WatchEventView::Moved(paths[0].0, paths[1].0)], known)
            } else {
                none
            },
            RawKind::Other => none,
            _ => fold_paths(kind, vault, patterns, known, paths),
        }
    }
}

impl FileWatcher {
    /// Makes the file at `path` known (by its vault-relative path).
    pub fn track_file(&mut self, path: &str)
        ensures
            final(self).known() == spec_track(old(self).known(), old(self).spec_vault(), path@),
            final(self).spec_vault() == old(self).spec_vault(),
            final(self).spec_patterns() == old(self).spec_patterns(),
    {
        match strip_vault_prefix(path, self.vault_path.as_str()) {
            Some(rel) => {
                let ghost k = self.known();
                let mut i: usize = 0;
                while i < self.known_files.len()
                    invariant
                        i <= self.known_files@.len(),
                        k == self.known_files@.map_values(|s: String| s@),
                        k == old(self).known(),
                        self.spec_vault() == old(self).spec_vault(),
                        self.spec_patterns() == old(self).spec_patterns(),
                        vault_relative(path@, self.spec_vault()) == Some(rel@),
                        forall|j: int| 0 <= j < i ==> k[j] != rel@,
                    decreases self.known_files@.len() - i,
                {
                    if str_eq(self.known_files[i].as_str(), rel.as_str()) {
                        proof {
                            assert(k[i as int] == rel@);
                            assert(k.contains(rel@));
                        }
                        return;
                    }
                    i += 1;
                }
                let ghost r = rel@;
                self.known_files.push(rel);
                proof {
                    assert(self.known() =~= k.push(r));
                }
            },
            None => {},
        }
    }

    /// Forgets the known files under `dir` (vault-relative) or equal to it.
    fn forget_under(&mut self, dir: &str, whole: bool)
        ensures
            whole ==> final(self).known() == old(self).known().filter(not_under_dir(dir@)),
            !whole ==> final(self).known() == old(self).known().filter(other_than(dir@)),
            final(self).spec_vault() == old(self).spec_vault(),
            final(self).spec_patterns() == old(self).spec_patterns(),
    {
        let prefix = dir_prefix_of(dir);
        let mut taken: Vec<String> = Vec::new();
        std::mem::swap(&mut taken, &mut self.known_files);
        let ghost orig = taken@.map_values(|s: String| s@);
        let ghost pred = if whole { not_under_dir(dir@) } else { other_than(dir@) };
        let ghost raw = taken@;
        let mut kept: Vec<String> = Vec::new();
        let ghost mut k: int = 0;
        while taken.len() > 0
            invariant
                0 <= k <= orig.len(),
                orig == raw.map_values(|s: String| s@),
                taken@ == raw.skip(k),
                prefix@ == dir_prefix(dir@),
                pred == (if whole { not_under_dir(dir@) } else { other_than(dir@) }),
                kept@.map_values(|s: String| s@) == orig.take(k).filter(pred),
            decreases taken@.len(),
        {
            let f = taken.remove(0);
            proof {
                assert(f == raw[k]);
                assert(orig.take(k + 1) =~= orig.take(k).push(f@));
                orig.take(k).lemma_filter_push(f@, pred);
            }
            let fv = str_chars(f.as_str());
            let drop = if whole {
                chars_start_with(&fv, &str_chars(prefix.as_str())) || str_eq(f.as_str(), dir)
            } else {
                str_eq(f.as_str(), dir)
            };
            let ghost before = kept@;
            if !drop {
                kept.push(f);
                proof {
                    assert(kept@.map_values(|s: String| s@) =~= before.map_values(|s: String| s@).push(f@));
                }
            }
            proof {
                k = k + 1;
                assert(taken@ =~= raw.skip(k));
            }
        }
        proof {
            assert(orig.take(k) =~= orig);
        }
        self.known_files = kept;
    }

    /// Makes the file at `path` unknown.
    pub fn untrack_file(&mut self, path: &str)
        ensures
            final(self).known() == spec_untrack(old(self).known(), old(self).spec_vault(), path@),
            final(self).spec_vault() == old(self).spec_vault(),
            final(self).spec_patterns() == old(self).spec_patterns(),
    {
        match strip_vault_prefix(path, self.vault_path.as_str()) {
            Some(rel) => self.forget_under(rel.as_str(), false),
            None => {},
        }
    }

    /// The known files under the directory `dir` (vault-relative), or equal to it.
    pub fn get_files_under_dir(&self, dir: &str) -> (r: Vec<String>)
        ensures
            r@.map_values(|s: String| s@) == self.known().filter(under_dir(dir@)),
    {
        let prefix = dir_prefix_of(dir);
        let ghost k = self.known();
        let mut out: Vec<String> = Vec::new();
        let mut i: usize = 0;
        while i < self.known_files.len()
            invariant
                i <= self.known_files@.len(),
                k == self.known_files@.map_values(|s: String| s@),
                prefix@ == dir_prefix(dir@),
                out@.map_values(|s: String| s@) == k.take(i as int).filter(under_dir(dir@)),
            decreases self.known_files@.len() - i,
        {
            let f = &self.known_files[i];
            proof {
                assert(k.take(i + 1) =~= k.take(i as int).push(f@));
                k.take(i as int).lemma_filter_push(f@, under_dir(dir@));
            }
            let fv = str_chars(f.as_str());
            if chars_start_with(&fv, &str_chars(prefix.as_str())) || str_eq(f.as_str(), dir) {
                let ghost before = out@;
                out.push(f.clone());
                proof {
                    assert(out@.map_values(|s: String| s@) =~= before.map_values(|s: String| s@).push(f@));
                }
            }
            i += 1;
        }
        proof {
            assert(k.take(i as int) =~= k);
        }
        out
    }

    /// Makes known, among `files` (the files found in the vault), those the
    /// watcher does not ignore, in order; the previously known files are
    /// forgotten.
    pub fn initialize_known_files(&mut self, files: &Vec<String>)
        ensures
            final(self).spec_vault() == old(self).spec_vault(),
            final(self).spec_patterns() == old(self).spec_patterns(),
            final(self).known() == track_all(
                Seq::empty(),
                old(self).spec_vault(),
                old(self).spec_patterns(),
                files@.map_values(|s: String| s@),
            ),
    {
        let ghost fs = files@.map_values(|s: String| s@);
        self.known_files = Vec::new();
        proof {
            assert(self.known() =~= Seq::<Seq<char>>::empty());
            assert(fs.take(0) =~= Seq::<Seq<char>>::empty());
        }
        let mut i: usize = 0;
        while i < files.len()
            invariant
                i <= files@.len(),
                fs == files@.map_values(|s: String| s@),
                self.spec_vault() == old(self).spec_vault(),
                self.spec_patterns() == old(self).spec_patterns(),
                self.known() == track_all(Seq::empty(), self.spec_vault(), self.spec_patterns(), fs.take(i as int)),
            decreases files@.len() - i,
        {
            let f = files[i].as_str();
            proof {
                assert(fs.take(i + 1).drop_last() =~= fs.take(i as int));
                assert(fs.take(i + 1).last() == f@);
            }
            if !self.is_excluded(f) {
                self.track_file(f);
            }
            i += 1;
        }
        proof {
            assert(fs.take(i as int) =~= fs);
        }
    }
}

impl FileWatcher {
    /// Appends the deletions of `victims` (vault-relative) to `out`.
    fn push_victim_events(&self, victims: &Vec<String>, out: &mut Vec<WatchEvent>)
        ensures
            final(out)@.map_values(|e: WatchEvent| e@) == old(out)@.map_values(|e: WatchEvent| e@) + victim_events(
                victims@.map_values(|s: String| s@),
                self.spec_vault(),
            ),
    {
        let ghost vs = victims@.map_values(|s: String| s@);
        let ghost start = old(out)@.map_values(|e: WatchEvent| e@);
        let mut i: usize = 0;
        while i < victims.len()
            invariant
                i <= victims@.len(),
                vs == victims@.map_values(|s: String| s@),
                out@.map_values(|e: WatchEvent| e@) == start + victim_events(vs.take(i as int), self.spec_vault()),
            decreases victims@.len() - i,
        {
            let ghost before = out@;
            let full = join_path(self.vault_path.as_str(), victims[i].as_str());
            out.push(WatchEvent::Deleted(full));
            proof {
                assert(vs.take(i + 1) =~= vs.take(i as int).push(vs[i as int]));
                assert(victim_events(vs.take(i + 1), self.spec_vault()) =~= victim_events(
                    vs.take(i as int),
                    self.spec_vault(),
                ).push(WatchEventView::Deleted(join_under(self.spec_vault(), vs[i as int]))));
                assert(out@.map_values(|e: WatchEvent| e@) =~= before.map_values(|e: WatchEvent| e@).push(
                    WatchEventView::Deleted(join_under(self.spec_vault(), vs[i as int])),
                ));
            }
            i += 1;
        }
        proof {
            assert(vs.take(i as int) =~= vs);
        }
    }

    /// Handles one path of a notification of kind `kind` (see [`path_step`]),
    /// appending what it yields to `out`.
    fn step_path(&mut self, kind: RawKind, p: &RawPath, out: &mut Vec<WatchEvent>)
        ensures
            ({
                let (evs, known) = path_step(
                    kind,
                    old(self).spec_vault(),
                    old(self).spec_patterns(),
                    old(self).known(),
                    raw_view(*p),
                );
                &&& final(out)@.map_values(|e: WatchEvent| e@) == old(out)@.map_values(|e: WatchEvent| e@) + evs
                &&& final(self).known() == known
            }),
            final(self).spec_vault() == old(self).spec_vault(),
            final(self).spec_patterns() == old(self).spec_patterns(),
    {
        let ghost start = out@.map_values(|e: WatchEvent| e@);
        let path = p.path.as_str();
        let ex = self.is_excluded(path);
        match kind {
            RawKind::Create | RawKind::RenameTo => {
                if !ex && p.is_file {
                    self.track_file(path);
                    out.push(WatchEvent::Created(p.path.clone()));
                }
            },
            RawKind::RenameFrom => {
                if !ex {
                    self.untrack_file(path);
                }
            },
            RawKind::RenameAny => {
                if !ex {
                    if p.exists && p.is_file {
                        self.track_file(path);
                        out.push(WatchEvent::Created(p.path.clone()));
                    } else {
                        match strip_vault_prefix(path, self.vault_path.as_str()) {
                            Some(rel) => {
                                let victims = self.get_files_under_dir(rel.as_str());
                                if victims.len() == 0 {
                                    self.untrack_file(path);
                                    out.push(WatchEvent::Deleted(p.path.clone()));
                                } else {
                                    self.push_victim_events(&victims, out);
                                    self.forget_under(rel.as_str(), true);
                                }
                            },
                            None => {},
                        }
                    }
                }
            },
            RawKind::OtherModify => {
                if !ex && p.exists {
                    out.push(WatchEvent::Modified(p.path.clone()));
                }
            },
            RawKind::RemoveFolder => {
                if !ex {
                    match strip_vault_prefix(path, self.vault_path.as_str()) {
                        Some(rel) => {
                            let victims = self.get_files_under_dir(rel.as_str());
                            self.push_victim_events(&victims, out);
                            self.forget_under(rel.as_str(), true);
                        },
                        None => {},
                    }
                }
            },
            RawKind::RemoveFile => {
                if !ex {
                    self.untrack_file(path);
                    out.push(WatchEvent::Deleted(p.path.clone()));
                }
            },
            _ => {},
        }
        proof {
            let (evs, known) = path_step(kind, old(self).spec_vault(), old(self).spec_patterns(), old(self).known(), raw_view(*p));
            assert(out@.map_values(|e: WatchEvent| e@) =~= start + evs);
        }
    }

    /// Turns a raw notification into watch events and updates the known
    /// files (see [`spec_process`]).
    pub fn process_event(&mut self, event: RawEvent) -> (r: Vec<WatchEvent>)
        ensures
            ({
                let (evs, known) = spec_process(
                    event.kind,
                    old(self).spec_vault(),
                    old(self).spec_patterns(),
                    old(self).known(),
                    event.paths@.map_values(|p: RawPath| raw_view(p)),
                );
                &&& r@.map_values(|e: WatchEvent| e@) == evs
                &&& final(self).known() == known
            }),
            final(self).spec_vault() == old(self).spec_vault(),
            final(self).spec_patterns() == old(self).spec_patterns(),
    {
        let ghost vault = self.spec_vault();
        let ghost pats = self.spec_patterns();
        let ghost ps = event.paths@.map_values(|p: RawPath| raw_view(p));
        let paths = &event.paths;
        let mut out: Vec<WatchEvent> = Vec::new();
        let mut all_excluded = true;
        let mut i: usize = 0;
        while i < paths.len()
            invariant
                i <= paths@.len(),
                ps == paths@.map_values(|p: RawPath| raw_view(p)),
                vault == self.spec_vault(),
                pats == self.spec_patterns(),
                all_excluded == (forall|j: int| 0 <= j < i ==> spec_watch_excluded(#[trigger] ps[j].0, vault, pats)),
            decreases paths@.len() - i,
        {
            let e = self.is_excluded(paths[i].path.as_str());
            proof {
                assert(ps[i as int].0 == paths@[i as int].path@);
                if all_excluded && e {
                    assert forall|j: int| 0 <= j < i + 1 implies spec_watch_excluded(#[trigger] ps[j].0, vault, pats) by {}
                }
            }
            all_excluded = all_excluded && e;
            i += 1;
        }
        if all_excluded {
            proof {
                assert(out@.map_values(|e: WatchEvent| e@) =~= Seq::<WatchEventView>::empty());
            }
            return out;
        }
        match event.kind {
            RawKind::RenameBoth => {
                if paths.len() == 2 {
                    let from = paths[0].path.as_str();
                    let to = paths[1].path.as_str();
                    if !self.is_excluded(from) && !self.is_excluded(to) {
                        self.untrack_file(from);
                        self.track_file(to);
                        out.push(WatchEvent::Moved { from: paths[0].path.clone(), to: paths[1].path.clone() });
                    }
                }
                proof {
                    assert(out@.map_values(|e: WatchEvent| e@) =~= spec_process(event.kind, vault, pats, old(self).known(), ps).0);
                }
                out
            },
            RawKind::Any => {
                if paths.len() == 2 {
                    let from = paths[0].path.as_str();
                    let to = paths[1].path.as_str();
                    if !paths[0].exists && paths[1].exists && !self.is_excluded(from) && !self.is_excluded(to) {
                        out.push(WatchEvent::Moved { from: paths[0].path.clone(), to: paths[1].path.clone() });
                    }
                }
                proof {
                    assert(out@.map_values(|e: WatchEvent| e@) =~= spec_process(event.kind, vault, pats, old(self).known(), ps).0);
                }
                out
            },
            RawKind::Other => {
                proof {
                    assert(out@.map_values(|e: WatchEvent| e@) =~= Seq::<WatchEventView>::empty());
                }
                out
            },
            _ => {
                let kind = event.kind;
                let mut k: usize = 0;
                proof {
                    assert(out@.map_values(|e: WatchEvent| e@) =~= Seq::<WatchEventView>::empty());
                    assert(ps.take(0) =~= Seq::<(Seq<char>, bool, bool)>::empty());
                }
                while k < paths.len()
                    invariant
                        k <= paths@.len(),
                        ps == paths@.map_values(|p: RawPath| raw_view(p)),
                        vault == self.spec_vault(),
                        pats == self.spec_patterns(),
                        ({
                            let (evs, known) = fold_paths(kind, vault, pats, old(self).known(), ps.take(k as int));
                            &&& out@.map_values(|e: WatchEvent| e@) == evs
                            &&& self.known() == known
                        }),
                    decreases paths@.len() - k,
                {
                    proof {
                        assert(ps.take(k + 1).drop_last() =~= ps.take(k as int));
                        assert(ps.take(k + 1).last() == raw_view(paths@[k as int]));
                    }
                    self.step_path(kind, &paths[k], &mut out);
                    k += 1;
                }
                proof {
                    assert(ps.take(k as int) =~= ps);
                }
                out
            },
        }
    }
}

/// The prefix of the files under a directory (see [`dir_prefix`]).
fn dir_prefix_of(dir: &str) -> (r: String)
    ensures
        r@ == dir_prefix(dir@),
{
    let mut v = str_chars(dir);
    if !(v.len() > 0 && v[v.len() - 1] == '/') {
        v.push('/');
    }
    crate::text::chars_to_string(&v)
}

/// Whether the watcher ignores a vault-relative path.
pub open spec fn excluded_rel(rel: Seq<char>, patterns: Seq<Seq<char>>) -> bool {
    (exists|i: int| 0 <= i < patterns.len() && spec_matches_pattern(rel, #[trigger] patterns[i])) || builtin_excluded(rel)
}

/// Whether no known file is one the watcher ignores.
pub open spec fn known_allowed(known: Seq<Seq<char>>, patterns: Seq<Seq<char>>) -> bool {
    forall|i: int| 0 <= i < known.len() ==> !excluded_rel(#[trigger] known[i], patterns)
}

/// Whether an event names only paths the watcher does not ignore.
pub open spec fn event_allowed(e: WatchEventView, vault: Seq<char>, patterns: Seq<Seq<char>>) -> bool {
    match e {
        WatchEventView::Created(p) => !spec_watch_excluded(p, vault, patterns),
        WatchEventView::Modified(p) => !spec_watch_excluded(p, vault, patterns),
        WatchEventView::Deleted(p) => !spec_watch_excluded(p, vault, patterns),
        WatchEventView::Moved(a, b) => !spec_watch_excluded(a, vault, patterns) && !spec_watch_excluded(b, vault, patterns),
    }
}

/// Whether every event of `es` names only paths the watcher does not ignore.
pub open spec fn events_allowed(es: Seq<WatchEventView>, vault: Seq<char>, patterns: Seq<Seq<char>>) -> bool {
    forall|i: int| 0 <= i < es.len() ==> event_allowed(#[trigger] es[i], vault, patterns)
}

/// A path joined under a non-empty vault is that path relative to it.
proof fn lemma_join_relative(vault: Seq<char>, rel: Seq<char>)
    requires
        vault.len() > 0,
    ensures
        vault_relative(join_under(vault, rel), vault) == Some(rel),
{
    let j = join_under(vault, rel);
    if vault.last() == '/' {
        assert(has_prefix(j, vault)) by {
            assert(j.take(vault.len() as int) =~= vault);
        }
        assert(j.skip(vault.len() as int) =~= rel);
        if rel.len() == 0 {
            assert(j =~= vault);
        }
    } else {
        assert(j.len() > vault.len());
        assert(has_prefix(j, vault.push('/'))) by {
            assert(j.take(vault.len() as int + 1) =~= vault.push('/'));
        }
        assert(j.skip(vault.len() as int + 1) =~= rel);
    }
}

/// Tracking a path the watcher does not ignore keeps the known files allowed.
proof fn lemma_track_allowed(known: Seq<Seq<char>>, vault: Seq<char>, patterns: Seq<Seq<char>>, path: Seq<char>)
    requires
        known_allowed(known, patterns),
        !spec_watch_excluded(path, vault, patterns),
    ensures
        known_allowed(spec_track(known, vault, path), patterns),
{
    match vault_relative(path, vault) {
        Some(r) => {
            assert(watch_rel(path, vault) == r);
            let k2 = spec_track(known, vault, path);
            assert forall|i: int| 0 <= i < k2.len() implies !excluded_rel(#[trigger] k2[i], patterns) by {
                if i < known.len() {
                    assert(k2[i] == known[i]);
                }
            }
        },
        None => {},
    }
}

/// Keeping part of the known files keeps them allowed.
proof fn lemma_filter_allowed(known: Seq<Seq<char>>, patterns: Seq<Seq<char>>, keep: spec_fn(Seq<char>) -> bool)
    requires
        known_allowed(known, patterns),
    ensures
        known_allowed(known.filter(keep), patterns),
{
    let f = known.filter(keep);
    assert forall|i: int| 0 <= i < f.len() implies !excluded_rel(#[trigger] f[i], patterns) by {
        assert(f.contains(f[i]));
        known.lemma_filter_contains_rev(keep, f[i]);
        let j = choose|j: int| 0 <= j < known.len() && known[j] == f[i];
        assert(!excluded_rel(known[j], patterns));
    }
}

/// The deletions reported for allowed known files name allowed paths.
proof fn lemma_victims_allowed(victims: Seq<Seq<char>>, vault: Seq<char>, patterns: Seq<Seq<char>>)
    requires
        vault.len() > 0,
        known_allowed(victims, patterns),
    ensures
        events_allowed(victim_events(victims, vault), vault, patterns),
{
    let es = victim_events(victims, vault);
    assert forall|i: int| 0 <= i < es.len() implies event_allowed(#[trigger] es[i], vault, patterns) by {
        lemma_join_relative(vault, victims[i]);
        assert(es[i] == WatchEventView::Deleted(join_under(vault, victims[i])));
        assert(watch_rel(join_under(vault, victims[i]), vault) == victims[i]);
        assert(!excluded_rel(victims[i], patterns));
    }
}

/// One path of a notification yields only allowed events and keeps the
/// known files allowed.
proof fn lemma_path_step_allowed(
    kind: RawKind,
    vault: Seq<char>,
    patterns: Seq<Seq<char>>,
    known: Seq<Seq<char>>,
    p: (Seq<char>, bool, bool),
)
    requires
        vault.len() > 0,
        known_allowed(known, patterns),
    ensures
        events_allowed(path_step(kind, vault, patterns, known, p).0, vault, patterns),
        known_allowed(path_step(kind, vault, patterns, known, p).1, patterns),
{
    let (path, exists, is_file) = p;
    let ex = spec_watch_excluded(path, vault, patterns);
    let (es, k2) = path_step(kind, vault, patterns, known, p);
    if !ex {
        lemma_track_allowed(known, vault, patterns, path);
        match vault_relative(path, vault) {
            Some(r) => {
                lemma_filter_allowed(known, patterns, other_than(r));
                lemma_filter_allowed(known, patterns, under_dir(r));
                lemma_filter_allowed(known, patterns, not_under_dir(r));
                lemma_victims_allowed(known.filter(under_dir(r)), vault, patterns);
            },
            None => {},
        }
    }
    assert(events_allowed(es, vault, patterns));
}

/// The paths of a notification, one after the other, yield only allowed
/// events and keep the known files allowed.
proof fn lemma_fold_paths_allowed(
    kind: RawKind,
    vault: Seq<char>,
    patterns: Seq<Seq<char>>,
    known: Seq<Seq<char>>,
    paths: Seq<(Seq<char>, bool, bool)>,
)
    requires
        vault.len() > 0,
        known_allowed(known, patterns),
    ensures
        events_allowed(fold_paths(kind, vault, patterns, known, paths).0, vault, patterns),
        known_allowed(fold_paths(kind, vault, patterns, known, paths).1, patterns),
    decreases paths.len(),
{
    if paths.len() > 0 {
        lemma_fold_paths_allowed(kind, vault, patterns, known, paths.drop_last());
        let (e1, k1) = fold_paths(kind, vault, patterns, known, paths.drop_last());
        lemma_path_step_allowed(kind, vault, patterns, k1, paths.last());
        let (e2, k2) = path_step(kind, vault, patterns, k1, paths.last());
        let es = e1 + e2;
        assert forall|i: int| 0 <= i < es.len() implies event_allowed(#[trigger] es[i], vault, patterns) by {
            if i < e1.len() {
                assert(es[i] == e1[i]);
            } else {
                assert(es[i] == e2[i - e1.len()]);
            }
        }
    }
}

/// The watcher never reports a path it ignores: as long as no known file is
/// one it ignores (as when the files were made known by the watcher itself),
/// every event of a notification names only paths it does not ignore, and
/// the known files afterwards are still none it ignores.
pub proof fn lemma_watcher_reports_no_excluded_path(
    kind: RawKind,
    vault: Seq<char>,
    patterns: Seq<Seq<char>>,
    known: Seq<Seq<char>>,
    paths: Seq<(Seq<char>, bool, bool)>,
)
    requires
        vault.len() > 0,
        known_allowed(known, patterns),
    ensures
        events_allowed(spec_process(kind, vault, patterns, known, paths).0, vault, patterns),
        known_allowed(spec_process(kind, vault, patterns, known, paths).1, patterns),
{
    let (es, k2) = spec_process(kind, vault, patterns, known, paths);
    if !(forall|i: int| 0 <= i < paths.len() ==> spec_watch_excluded(#[trigger] paths[i].0, vault, patterns)) {
        match kind {
            RawKind::RenameBoth => {
                if paths.len() == 2 && !spec_watch_excluded(paths[0].0, vault, patterns) && !spec_watch_excluded(
                    paths[1].0,
                    vault,
                    patterns,
                ) {
                    lemma_filter_allowed(known, patterns, other_than(vault_relative(paths[0].0, vault).unwrap()));
                    let k1 = spec_untrack(known, vault, paths[0].0);
                    assert(known_allowed(k1, patterns));
                    lemma_track_allowed(k1, vault, patterns, paths[1].0);
                }
            },
            RawKind::Any | RawKind::Other => {},
            _ => {
                lemma_fold_paths_allowed(kind, vault, patterns, known, paths);
            },
        }
    }
}

/// The files the watcher first knows (see `initialize_known_files`) are
/// none it ignores.
pub proof fn lemma_initial_known_allowed(
    known: Seq<Seq<char>>,
    vault: Seq<char>,
    patterns: Seq<Seq<char>>,
    files: Seq<Seq<char>>,
)
    requires
        known_allowed(known, patterns),
    ensures
        known_allowed(track_all(known, vault, patterns, files), patterns),
    decreases files.len(),
{
    if files.len() > 0 {
        lemma_initial_known_allowed(known, vault, patterns, files.drop_last());
        let before = track_all(known, vault, patterns, files.drop_last());
        if !spec_watch_excluded(files.last(), vault, patterns) {
            lemma_track_allowed(before, vault, patterns, files.last());
        }
    }
}

} // verus!
