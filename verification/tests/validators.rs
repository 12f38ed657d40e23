use gitcash::usernames::{AccountInfo, AccountKind, KnownUsernames, ValidationOutcome};

fn snapshot(names: &[&str]) -> KnownUsernames {
    KnownUsernames::new(names.iter().map(|n| n.to_string()).collect())
}

fn reason(outcome: ValidationOutcome) -> String {
    match outcome {
        ValidationOutcome::Valid => panic!("expected an invalid outcome"),
        ValidationOutcome::Invalid(m) => m,
    }
}

#[test]
fn new_username_empty() {
    let known = snapshot(&["alice"]);
    assert_eq!(reason(known.validate_new("")), "Username may not be empty");
    assert_eq!(reason(known.validate_new("   ")), "Username may not be empty");
}

#[test]
fn new_username_space() {
    let known = snapshot(&["alice"]);
    assert_eq!(
        reason(known.validate_new("al ice")),
        "Username may not contain a space"
    );
}

#[test]
fn new_username_colon() {
    let known = snapshot(&["alice"]);
    assert_eq!(
        reason(known.validate_new("ali:ce")),
        "Username may not contain a colon"
    );
}

#[test]
fn new_username_already_exists() {
    let known = snapshot(&["alice"]);
    assert_eq!(
        reason(known.validate_new("alice")),
        "Username already exists: alice"
    );
}

#[test]
fn new_username_checks_run_in_fixed_order() {
    // A name both empty after trimming and nothing else: emptiness wins.
    let known = snapshot(&["alice"]);
    assert_eq!(reason(known.validate_new(" ")), "Username may not be empty");
    // Space is reported before colon.
    assert_eq!(
        reason(known.validate_new("a :b")),
        "Username may not contain a space"
    );
}

#[test]
fn new_username_clean_is_valid() {
    let known = snapshot(&["alice"]);
    assert_eq!(known.validate_new("bob"), ValidationOutcome::Valid);
    // Surrounding whitespace is trimmed before the checks.
    assert_eq!(known.validate_new("  bob  "), ValidationOutcome::Valid);
}

#[test]
fn existing_username_exact_case_sensitive_membership() {
    let known = snapshot(&["alice"]);
    assert_eq!(known.validate_existing("alice"), ValidationOutcome::Valid);
    assert_eq!(
        reason(known.validate_existing("Alice")),
        "Not a known username: Alice"
    );
    assert_eq!(
        reason(known.validate_existing("bob")),
        "Not a known username: bob"
    );
}

#[test]
fn snapshot_from_accounts_keeps_user_accounts_in_order() {
    let accounts = vec![
        AccountInfo {
            name: "alice".to_string(),
            kind: AccountKind::User,
        },
        AccountInfo {
            name: "cash".to_string(),
            kind: AccountKind::Source,
        },
        AccountInfo {
            name: "bob".to_string(),
            kind: AccountKind::User,
        },
        AccountInfo {
            name: "till".to_string(),
            kind: AccountKind::Other,
        },
    ];
    let known = KnownUsernames::from_accounts(&accounts);
    assert!(known.contains("alice"));
    assert!(known.contains("bob"));
    assert!(!known.contains("cash"));
    assert!(!known.contains("till"));
    assert_eq!(known.suggestions(""), vec!["alice", "bob"]);
}
