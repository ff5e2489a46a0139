use faststart::paths::{is_candidate, scan_pattern};
use glob::{MatchOptions, Pattern};

/// How a scan matches: every component by itself, case and all.
fn scanning() -> MatchOptions {
    MatchOptions {
        case_sensitive: true,
        require_literal_separator: true,
        require_literal_leading_dot: false,
    }
}

fn pattern_below(directory: &str) -> Pattern {
    Pattern::new(&scan_pattern(directory)).unwrap()
}

#[test]
fn scan_pattern_is_a_pattern() {
    for directory in ["clips", "clips/", ".", "/", "/media/my clips", "vidéos"] {
        assert!(Pattern::new(&scan_pattern(directory)).is_ok(), "{}", directory);
    }
}

#[test]
fn scan_pattern_finds_candidates_at_every_depth() {
    let pattern = pattern_below("clips");
    for path in ["clips/a.mp4", "clips/x/a.mp4", "clips/x/y/z/a.b.mp4", "clips/x.mp4/a.mp4"] {
        assert!(is_candidate(path));
        assert!(pattern.matches_with(path, scanning()), "{}", path);
    }
}

#[test]
fn scan_pattern_finds_nothing_outside_the_directory() {
    let pattern = pattern_below("clips");
    for path in ["a.mp4", "other/a.mp4", "clipsa.mp4", "clips2/a.mp4"] {
        assert!(!pattern.matches_with(path, scanning()), "{}", path);
    }
}

#[test]
fn scan_pattern_passes_over_other_extensions() {
    let pattern = pattern_below("clips");
    for path in ["clips/a.mkv", "clips/a.MP4", "clips/a.mp4.bak", "clips/mp4", "clips/a.mp4/b"] {
        assert!(!is_candidate(path));
        assert!(!pattern.matches_with(path, scanning()), "{}", path);
    }
}

#[test]
fn scan_pattern_finds_names_that_are_no_candidates() {
    // A name that is nothing but the extension matches the pattern, and is
    // dropped when the candidates are selected.
    let pattern = pattern_below("clips");
    assert!(pattern.matches_with("clips/.mp4", scanning()));
    assert!(!is_candidate("clips/.mp4"));
}

#[test]
fn wildcards_in_the_directory_stay_wildcards() {
    assert!(pattern_below("clip?").matches_with("clips/a.mp4", scanning()));
    assert!(Pattern::new(&scan_pattern("clips[")).is_err());
    assert!(Pattern::new(&scan_pattern("clips**")).is_err());
}
