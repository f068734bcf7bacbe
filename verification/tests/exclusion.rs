//! Tests of the path-exclusion matcher and its string helpers.

use wrap_components_with_observer::{
    path_components_match, should_exclude, should_process_file, split_str, str_contains,
};

fn strings(parts: &[&str]) -> Vec<String> {
    parts.iter().map(|s| s.to_string()).collect()
}

#[test]
fn test_should_exclude() {
    // Test with absolute paths
    let abs_path = "/Users/christianalfoni/Development/observing-components/vite-project/src/Test.tsx";
    let patterns = vec!["src/Test.tsx".to_string()];
    assert!(
        should_exclude(abs_path, &patterns),
        "Should exclude src/Test.tsx from absolute path"
    );

    // Test with file name only
    let patterns = vec!["Test.tsx".to_string()];
    assert!(should_exclude(abs_path, &patterns), "Should exclude Test.tsx by file name");

    // Test with glob patterns
    let patterns = vec!["src/*.tsx".to_string()];
    assert!(should_exclude(abs_path, &patterns), "Should exclude with glob pattern");

    // Test with pattern that shouldn't match
    let patterns = vec!["src/Other.tsx".to_string()];
    assert!(!should_exclude(abs_path, &patterns), "Shouldn't exclude non-matching path");

    // Test with multiple patterns
    let patterns = vec!["src/Other.tsx".to_string(), "src/Test.tsx".to_string()];
    assert!(
        should_exclude(abs_path, &patterns),
        "Should exclude with one matching pattern"
    );
}

#[test]
fn test_path_components_match() {
    let path = strings(&[
        "Users",
        "christianalfoni",
        "Development",
        "observing-components",
        "vite-project",
        "src",
        "Test.tsx",
    ]);

    // Basic match
    let pattern = strings(&["src", "Test.tsx"]);
    assert!(path_components_match(&path, &pattern), "Should match subsequence");

    // Case insensitive
    let pattern = strings(&["SRC", "test.tsx"]);
    assert!(path_components_match(&path, &pattern), "Should match case-insensitive");

    // Non-match
    let pattern = strings(&["src", "Other.tsx"]);
    assert!(!path_components_match(&path, &pattern), "Shouldn't match different components");

    // Empty pattern should match anything
    let pattern: Vec<String> = vec![];
    assert!(path_components_match(&path, &pattern), "Empty pattern should match");
}

#[test]
fn test_empty_pattern_list_excludes_nothing() {
    let patterns: Vec<String> = vec![];
    assert!(!should_exclude("/a/b/src/Test.tsx", &patterns));
}

#[test]
fn test_empty_path_matches_no_pattern() {
    let patterns = vec!["src/Test.tsx".to_string()];
    assert!(!should_exclude("", &patterns));
}

#[test]
fn test_invalid_glob_pattern_is_discarded() {
    // "[" is not a valid glob; alone it matches nothing, and beside a valid
    // pattern the valid one still matches.
    let abs_path = "/Users/x/project/src/Test.tsx";
    let patterns = vec!["[".to_string()];
    assert!(!should_exclude(abs_path, &patterns));
    let patterns = vec!["[".to_string(), "Test.tsx".to_string()];
    assert!(should_exclude(abs_path, &patterns));
}

#[test]
fn test_exclusion_matrix() {
    let path = "/Users/x/project/src/Test.tsx";
    assert!(should_exclude(path, &vec!["src/Test.tsx".to_string()]));
    assert!(should_exclude(path, &vec!["Test.tsx".to_string()]));
    assert!(should_exclude(path, &vec!["src/*.tsx".to_string()]));
    assert!(!should_exclude(path, &vec!["src/Other.tsx".to_string()]));
    assert!(should_exclude(
        path,
        &vec!["src/Other.tsx".to_string(), "src/Test.tsx".to_string()]
    ));
}

#[test]
fn test_should_process_file_skips_vendored_dirs() {
    let patterns: Vec<String> = vec![];
    assert!(!should_process_file("/app/node_modules/lib/index.js", &patterns));
    assert!(should_process_file("/app/src/App.tsx", &patterns));
    let patterns = vec!["src/*.tsx".to_string()];
    assert!(!should_process_file("/app/src/App.tsx", &patterns));
}

#[test]
fn test_split_str_components() {
    let parts = split_str("/a/b/c.tsx", '/');
    let expected: Vec<String> = strings(&["", "a", "b", "c.tsx"]);
    assert_eq!(parts, expected);
    let parts = split_str("", '/');
    assert_eq!(parts, strings(&[""]));
}

#[test]
fn test_str_contains() {
    assert!(str_contains("/app/node_modules/x.js", "node_modules"));
    assert!(!str_contains("/app/src/x.js", "node_modules"));
    assert!(str_contains("abc", ""));
}
