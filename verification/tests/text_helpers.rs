use gitcash::text::{contains_ci_str, to_lower, trim_ws};

#[test]
fn folding_maps_only_ascii_uppercase() {
    assert_eq!(to_lower('A'), 'a');
    assert_eq!(to_lower('Z'), 'z');
    assert_eq!(to_lower('a'), 'a');
    assert_eq!(to_lower('0'), '0');
    assert_eq!(to_lower(':'), ':');
    assert_eq!(to_lower('é'), 'é');
}

#[test]
fn substring_test_is_case_insensitive() {
    assert!(contains_ci_str("Alice", "ic"));
    assert!(contains_ci_str("Alice", "IC"));
    assert!(contains_ci_str("ALICE", "lic"));
    assert!(!contains_ci_str("Bob", "ic"));
    assert!(contains_ci_str("Nicole", "nicole"));
}

#[test]
fn every_string_contains_the_empty_string() {
    assert!(contains_ci_str("Alice", ""));
    assert!(contains_ci_str("", ""));
    assert!(!contains_ci_str("", "a"));
}

#[test]
fn trimming_strips_surrounding_whitespace_only() {
    assert_eq!(trim_ws("  bob  "), "bob");
    assert_eq!(trim_ws("bob"), "bob");
    assert_eq!(trim_ws("\t a b \n"), "a b");
    assert_eq!(trim_ws("   "), "");
    assert_eq!(trim_ws(""), "");
}
