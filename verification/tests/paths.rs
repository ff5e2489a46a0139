use faststart::paths::{is_candidate, scan_pattern, staging_path};

#[test]
fn candidate_has_the_target_extension() {
    assert!(is_candidate("movie.mp4"));
    assert!(is_candidate("clips/2024/holiday.mp4"));
    assert!(is_candidate("/media/a.b.mp4"));
    assert!(is_candidate("a..mp4"));
}

#[test]
fn candidate_extension_is_case_sensitive() {
    assert!(!is_candidate("movie.MP4"));
    assert!(!is_candidate("movie.Mp4"));
}

#[test]
fn other_extensions_are_no_candidates() {
    assert!(!is_candidate("movie.mkv"));
    assert!(!is_candidate("movie.mp4.bak"));
    assert!(!is_candidate("movie"));
    assert!(!is_candidate("movie.mp"));
    assert!(!is_candidate("moviemp4"));
    assert!(!is_candidate(""));
}

#[test]
fn a_name_that_is_only_the_extension_is_no_candidate() {
    assert!(!is_candidate(".mp4"));
    assert!(!is_candidate("clips/.mp4"));
}

#[test]
fn a_directory_with_the_extension_does_not_make_a_candidate() {
    assert!(!is_candidate("clips.mp4/readme"));
    assert!(!is_candidate("clips.mp4/"));
}

#[test]
fn staging_path_replaces_the_extension() {
    assert_eq!(staging_path("movie.mp4"), "movie.new.mp4");
    assert_eq!(staging_path("clips/2024/holiday.mp4"), "clips/2024/holiday.new.mp4");
    assert_eq!(staging_path("/media/a.b.mp4"), "/media/a.b.new.mp4");
}

#[test]
fn staging_path_of_a_staging_path_is_another_path() {
    assert_eq!(staging_path("movie.new.mp4"), "movie.new.new.mp4");
}

#[test]
fn staging_path_without_extension_appends_the_suffix() {
    assert_eq!(staging_path("movie"), "movie.new.mp4");
    assert_eq!(staging_path("clips.d/movie"), "clips.d/movie.new.mp4");
    assert_eq!(staging_path(".hidden"), ".hidden.new.mp4");
    assert_eq!(staging_path("clips/.hidden"), "clips/.hidden.new.mp4");
}

#[test]
fn staging_path_keeps_characters_beyond_ascii() {
    assert_eq!(staging_path("vidéos/été.mp4"), "vidéos/été.new.mp4");
}

#[test]
fn staging_path_differs_from_its_source() {
    for source in ["a.mp4", "a", "a.new.mp4", ".mp4", "a.", "", "d/", "a.new"] {
        assert_ne!(staging_path(source), source);
    }
}

#[test]
fn scan_pattern_reaches_every_depth() {
    assert_eq!(scan_pattern("clips"), "clips/**/*.mp4");
    assert_eq!(scan_pattern("/media/clips"), "/media/clips/**/*.mp4");
    assert_eq!(scan_pattern("."), "./**/*.mp4");
}

#[test]
fn scan_pattern_adds_no_second_separator() {
    assert_eq!(scan_pattern("clips/"), "clips/**/*.mp4");
    assert_eq!(scan_pattern("/"), "/**/*.mp4");
    assert_eq!(scan_pattern(""), "**/*.mp4");
}

#[test]
fn characters_are_those_of_the_text() {
    assert_eq!(faststart::paths::characters("a/é.mp4"), vec!['a', '/', 'é', '.', 'm', 'p', '4']);
    assert_eq!(faststart::paths::characters(""), Vec::<char>::new());
}

#[test]
fn stem_ends_at_the_last_dot_of_the_final_component() {
    let end = |path: &str| faststart::paths::find_stem_end(&path.chars().collect());
    assert_eq!(end("movie.mp4"), 5);
    assert_eq!(end("a.b.mp4"), 3);
    assert_eq!(end("clips.d/movie"), 13);
    assert_eq!(end("clips/.hidden"), 13);
    assert_eq!(end(".hidden"), 7);
    assert_eq!(end("movie."), 5);
    assert_eq!(end(""), 0);
}

#[test]
fn candidates_are_the_paths_that_std_gives_the_extension() {
    let paths = [
        "movie.mp4",
        "clips/2024/holiday.mp4",
        "/media/a.b.mp4",
        "a..mp4",
        ".mp4",
        "clips/.mp4",
        "movie.MP4",
        "movie.mkv",
        "movie.mp4.bak",
        "movie",
        "clips.mp4/readme",
        "./movie.mp4",
        "../movie.mp4",
        "vidéos/été.mp4",
    ];
    for path in paths {
        let by_std = std::path::Path::new(path).extension().is_some_and(|ext| ext == "mp4");
        assert_eq!(is_candidate(path), by_std, "{}", path);
    }
}

#[test]
fn staging_paths_are_those_that_std_derives() {
    let paths = [
        "movie.mp4",
        "clips/2024/holiday.mp4",
        "/media/a.b.mp4",
        "a..mp4",
        "movie.new.mp4",
        "movie",
        "clips.d/movie",
        ".hidden",
        "clips/.hidden",
        "./movie.mp4",
        "../movie.mp4",
        "vidéos/été.mp4",
    ];
    for path in paths {
        let by_std = std::path::Path::new(path).with_extension("new.mp4");
        assert_eq!(Some(staging_path(path).as_str()), by_std.to_str(), "{}", path);
    }
}

#[test]
fn scan_patterns_are_those_that_std_joins() {
    for directory in ["clips", "/media/clips", ".", "..", "clips/", "/", "", "a/b/c"] {
        let by_std = std::path::Path::new(directory).join("**").join("*.mp4");
        assert_eq!(Some(scan_pattern(directory).as_str()), by_std.to_str(), "{}", directory);
    }
}
