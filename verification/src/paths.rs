//! Path texts: which paths are candidates, where a candidate's staging file
//! lives, and the pattern that finds the candidates below a directory.
//!
//! A path is a text whose components are separated by `/`. Nothing here
//! touches a file system: every function maps texts to texts.

use vstd::prelude::*;

verus! {

/// The texts of a list of strings.
pub open spec fn texts(strings: Seq<String>) -> Seq<Seq<char>> {
    strings.map_values(|s: String| s@)
}

/// The extension that marks a file of the target format.
pub open spec fn target_extension() -> Seq<char> {
    seq!['m', 'p', '4']
}

/// What replaces the extension of a source path to name its staging file.
pub open spec fn staging_suffix() -> Seq<char> {
    seq!['.', 'n', 'e', 'w', '.', 'm', 'p', '4']
}

/// What follows a directory in the pattern that finds its candidates: any
/// depth of subdirectories, then any name with the target extension.
pub open spec fn scan_suffix() -> Seq<char> {
    seq!['*', '*', '/', '*', '.', 'm', 'p', '4']
}

/// `dot` is where the extension of `path` begins: the last dot of the final
/// component, provided that the component does not start with it.
pub open spec fn is_extension_dot(path: Seq<char>, dot: int) -> bool {
    &&& 0 < dot < path.len()
    &&& path[dot] == '.'
    &&& path[dot - 1] != '/'
    &&& forall|i: int| dot < i < path.len() ==> path[i] != '.' && path[i] != '/'
}

/// Whether the final component of `path` has an extension.
pub open spec fn has_extension(path: Seq<char>) -> bool {
    exists|dot: int| is_extension_dot(path, dot)
}

/// Where the stem of `path` ends: at the dot of its extension, or at the end
/// of a path without one.
pub open spec fn stem_end(path: Seq<char>) -> int {
    if has_extension(path) {
        choose|dot: int| is_extension_dot(path, dot)
    } else {
        path.len() as int
    }
}

/// The path without its extension: directory and stem.
pub open spec fn stem(path: Seq<char>) -> Seq<char> {
    path.subrange(0, stem_end(path))
}

/// The extension of the final component, without its dot.
pub open spec fn extension(path: Seq<char>) -> Option<Seq<char>> {
    if has_extension(path) {
        Some(path.subrange(stem_end(path) + 1, path.len() as int))
    } else {
        None
    }
}

/// A candidate is a path whose extension is the target extension, in exactly
/// that case.
pub open spec fn is_candidate_path(path: Seq<char>) -> bool {
    extension(path) == Some(target_extension())
}

/// The staging path of a source: same directory, same stem, and the staging
/// suffix in place of the extension.
pub open spec fn staging_path_of(source: Seq<char>) -> Seq<char> {
    stem(source) + staging_suffix()
}

/// The pattern that matches the candidates at any depth below `directory`.
/// The directory goes into the pattern as it is: a wildcard in its name is a
/// wildcard of the pattern.
pub open spec fn scan_pattern_of(directory: Seq<char>) -> Seq<char> {
    if directory.len() == 0 || directory.last() == '/' {
        directory + scan_suffix()
    } else {
        directory + seq!['/'] + scan_suffix()
    }
}

/// A path has at most one extension dot.
pub proof fn lemma_extension_dot_unique(path: Seq<char>, first: int, second: int)
    requires
        is_extension_dot(path, first),
        is_extension_dot(path, second),
    ensures
        first == second,
{
}

/// The stem ends at the extension dot, wherever one is found.
pub proof fn lemma_stem_end_at_dot(path: Seq<char>, dot: int)
    requires
        is_extension_dot(path, dot),
    ensures
        has_extension(path),
        stem_end(path) == dot,
{
    lemma_extension_dot_unique(path, dot, stem_end(path));
}

/// The stem ends inside the path, and at a dot if it ends before the end.
pub proof fn lemma_stem_end_bounds(path: Seq<char>)
    ensures
        0 <= stem_end(path) <= path.len(),
        stem_end(path) < path.len() <==> has_extension(path),
        has_extension(path) ==> is_extension_dot(path, stem_end(path)),
{
}

/// A candidate is a path that ends in a dot and the target extension, after
/// a final component that holds something before that dot.
pub proof fn lemma_candidate_by_ending(path: Seq<char>)
    ensures
        is_candidate_path(path) <==> {
            &&& path.len() >= 5
            &&& path.subrange(path.len() - 4, path.len() as int) == seq!['.', 'm', 'p', '4']
            &&& path[path.len() - 5] != '/'
        },
        is_candidate_path(path) ==> stem_end(path) == path.len() - 4,
{
    let n = path.len() as int;
    let ending = seq!['.', 'm', 'p', '4'];
    lemma_stem_end_bounds(path);
    if is_candidate_path(path) {
        assert(path.subrange(stem_end(path) + 1, n) == target_extension());
        assert(path.subrange(n - 4, n) =~= ending);
    }
    if n >= 5 && path.subrange(n - 4, n) == ending && path[n - 5] != '/' {
        lemma_stem_end_at_dot(path, n - 4);
        assert(path.subrange(n - 3, n) =~= target_extension());
    }
}

/// The staging path of a candidate is the candidate with `.new.mp4` in place
/// of its `.mp4`.
pub proof fn lemma_staging_of_candidate(source: Seq<char>)
    requires
        is_candidate_path(source),
    ensures
        staging_path_of(source) == source.subrange(0, source.len() - 4) + staging_suffix(),
{
    lemma_candidate_by_ending(source);
}

/// A staging path never names its own source, so the tool never writes to
/// the file that it reads.
pub proof fn lemma_staging_differs(source: Seq<char>)
    ensures
        staging_path_of(source) != source,
{
    let staging = staging_path_of(source);
    let end = stem_end(source);
    lemma_stem_end_bounds(source);
    if has_extension(source) && staging == source {
        // The extension of the source would begin at `end` and hold a dot.
        assert(staging[end + 4] == staging_suffix()[4]);
    }
}

/// Each candidate has a staging path of its own: two candidates with the
/// same staging path are the same candidate.
pub proof fn lemma_staging_paths_distinct(first: Seq<char>, second: Seq<char>)
    requires
        is_candidate_path(first),
        is_candidate_path(second),
        staging_path_of(first) == staging_path_of(second),
    ensures
        first == second,
{
    lemma_candidate_by_ending(first);
    lemma_candidate_by_ending(second);
    let kept = first.len() - 4;
    assert(staging_path_of(first).len() == kept + 8);
    assert forall|i: int| 0 <= i < first.len() implies first[i] == second[i] by {
        if i < kept {
            assert(first[i] == staging_path_of(first)[i]);
        }
    }
}

/// A staging path lies in the directory of its source: both have their
/// separators at the same places.
pub proof fn lemma_staging_same_directory(source: Seq<char>)
    ensures
        forall|i: int|
            0 <= i < staging_path_of(source).len() ==> (#[trigger] staging_path_of(source)[i] == '/'
                <==> i < source.len() && source[i] == '/'),
{
    lemma_stem_end_bounds(source);
}

/// A staging path is itself a candidate path: a staging file that a failed
/// run left behind is found again by the next scan of its directory.
pub proof fn lemma_staging_is_candidate(source: Seq<char>)
    ensures
        is_candidate_path(staging_path_of(source)),
{
    let staging = staging_path_of(source);
    let n = staging.len() as int;
    lemma_stem_end_bounds(source);
    assert(staging.subrange(n - 4, n) =~= seq!['.', 'm', 'p', '4']);
    lemma_candidate_by_ending(staging);
}

/// The characters of `text`, in order.
pub fn characters(text: &str) -> (chars: Vec<char>)
    ensures
        chars@ == text@,
{
    broadcast use vstd::string::axiom_spec_iter;

    let mut chars: Vec<char> = Vec::new();
    for c in it: text.chars()
        invariant
            it.seq() == text@,
            chars@ == text@.take(it.index()),
    {
        chars.push(c);
    }
    chars
}

/// Finds where the stem of a path ends, scanning back from its end to the
/// last dot or separator.
pub fn find_stem_end(path: &Vec<char>) -> (end: usize)
    ensures
        end == stem_end(path@),
        end <= path.len(),
{
    let n: usize = path.len();
    let mut i: usize = n;
    while i > 0
        invariant
            i <= n,
            n == path.len(),
            forall|j: int| i <= j < n ==> path@[j] != '.' && path@[j] != '/',
        decreases i,
    {
        let c = path[i - 1];
        if c == '/' {
            proof {
                lemma_no_extension(path@, i as int - 1);
            }
            return n;
        }
        if c == '.' {
            if i >= 2 && path[i - 2] != '/' {
                proof {
                    lemma_stem_end_at_dot(path@, i as int - 1);
                }
                return i - 1;
            }
            proof {
                lemma_no_extension(path@, i as int - 1);
            }
            return n;
        }
        i -= 1;
    }
    proof {
        lemma_no_extension(path@, -1);
    }
    n
}

/// A path has no extension where, going back from its end, a separator or a
/// dot that starts the final component comes before any other dot.
proof fn lemma_no_extension(path: Seq<char>, stop: int)
    requires
        -1 <= stop < path.len(),
        forall|j: int| stop < j < path.len() ==> path[j] != '.' && path[j] != '/',
        stop >= 0 ==> path[stop] == '/' || (path[stop] == '.' && (stop == 0 || path[stop - 1]
            == '/')),
    ensures
        !has_extension(path),
        stem_end(path) == path.len(),
{
    if has_extension(path) {
        // Any extension dot would stand at `stop`, before it or after it, and
        // each of the three is ruled out.
        let dot = choose|dot: int| is_extension_dot(path, dot);
        assert(dot != stop);
    }
}

/// Whether `path` is a candidate: its extension is the target extension.
pub fn is_candidate(path: &str) -> (candidate: bool)
    ensures
        candidate == is_candidate_path(path@),
{
    let chars = characters(path);
    let n: usize = chars.len();
    proof {
        lemma_candidate_by_ending(path@);
    }
    if n < 5 {
        return false;
    }
    let ends = chars[n - 4] == '.' && chars[n - 3] == 'm' && chars[n - 2] == 'p' && chars[n - 1]
        == '4';
    proof {
        let tail = path@.subrange(n - 4, n as int);
        if ends {
            assert(tail =~= seq!['.', 'm', 'p', '4']);
        } else {
            assert(tail[0] != '.' || tail[1] != 'm' || tail[2] != 'p' || tail[3] != '4');
        }
    }
    ends && chars[n - 5] != '/'
}

/// The staging path of `source`: its stem, then `.new.mp4`.
pub fn staging_path(source: &str) -> (staging: String)
    ensures
        staging@ == staging_path_of(source@),
{
    let chars = characters(source);
    let end = find_stem_end(&chars);
    let kept = source.substring_char(0, end);
    proof {
        reveal_strlit(".new.mp4");
    }
    String::from_str(kept).concat(".new.mp4")
}

/// The pattern that finds the candidates at any depth below `directory`.
pub fn scan_pattern(directory: &str) -> (pattern: String)
    ensures
        pattern@ == scan_pattern_of(directory@),
{
    let chars = characters(directory);
    let n: usize = chars.len();
    proof {
        reveal_strlit("**/*.mp4");
        reveal_strlit("/");
    }
    let base = String::from_str(directory);
    if n == 0 || chars[n - 1] == '/' {
        base.concat("**/*.mp4")
    } else {
        base.concat("/").concat("**/*.mp4")
    }
}

} // verus!
