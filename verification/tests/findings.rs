use codeclimate::{CodeClimate, Level, Severity, UNSET_CODE};

#[test]
fn warning_with_code() {
    let item = CodeClimate::new(
        Some(String::from("unused_variable")),
        "unused variable: x",
        "src/a.rs",
        3,
        Level::Warning,
    );
    assert_eq!(item.check_name(), "unused_variable");
    assert_eq!(item.description(), "unused variable: x");
    assert_eq!(item.fingerprint(), "95889601cea1f36e1e014e9eaeee389c5a436467");
    assert_eq!(item.severity(), Severity::Minor);
    assert_eq!(item.severity().tag(), "minor");
    assert_eq!(item.location().path(), "src/a.rs");
    assert_eq!(item.location().lines().begin(), 3);
}

#[test]
fn help_without_code() {
    let item = CodeClimate::new(None, "consider removing this", "src/lib.rs", 12, Level::Help);
    assert_eq!(item.check_name(), "unset code");
    assert_eq!(item.severity(), Severity::Info);
    assert_eq!(item.severity().tag(), "info");
    assert_eq!(item.description(), "consider removing this");
    assert_eq!(item.fingerprint(), "2c5b933ccb6456377567d9f7a9f415ba6c27be85");
}

#[test]
fn unset_code_is_the_fallback() {
    assert_eq!(UNSET_CODE, "unset code");
    for level in [Level::Error, Level::Warning, Level::Note, Level::Unknown] {
        let item = CodeClimate::new(None, "m", "p", 1, level);
        assert_eq!(item.check_name(), UNSET_CODE);
    }
}

#[test]
fn empty_code_is_kept() {
    let item = CodeClimate::new(Some(String::new()), "m", "p", 1, Level::Error);
    assert_eq!(item.check_name(), "");
}

#[test]
fn error_is_major_finding() {
    let item = CodeClimate::new(
        Some(String::from("E0308")),
        "mismatched types",
        "src/c.rs",
        40,
        Level::Error,
    );
    assert_eq!(item.severity(), Severity::Major);
    assert_eq!(item.check_name(), "E0308");
    assert_eq!(item.fingerprint(), "82d274ec6f82a1c45a06683155b5c037d0dd37fa");
    assert_eq!(item.location().lines().begin(), 40);
}

#[test]
fn fingerprint_ignores_code_and_level() {
    let first = CodeClimate::new(Some(String::from("dead_code")), "dead code", "src/b.rs", 9, Level::Warning);
    let second = CodeClimate::new(None, "dead code", "src/b.rs", 9, Level::Error);
    assert_eq!(first.fingerprint(), second.fingerprint());
    assert_eq!(first.fingerprint(), "76a20f7b0af8e704156287ebc7dcfac3ebe896e0");
    assert_ne!(first.check_name(), second.check_name());
    assert_ne!(first.severity(), second.severity());
}

#[test]
fn fingerprint_is_the_calculated_one() {
    let item = CodeClimate::new(None, "héllo wörld", "src/€.rs", 1, Level::Note);
    assert_eq!(item.fingerprint(), CodeClimate::calculate_fingerprint("héllo wörld", "src/€.rs", 1));
    assert_eq!(item.fingerprint(), "21fe8f678b50b4a192025c87ac0cbc98279a9a5e");
}

#[test]
fn with_fingerprint_takes_the_given_one() {
    let item = CodeClimate::with_fingerprint(
        Some(String::from("unused_variable")),
        "unused variable: x",
        "src/a.rs",
        3,
        Level::Warning,
        String::from("0000000000000000000000000000000000000000"),
    );
    assert_eq!(item.fingerprint(), "0000000000000000000000000000000000000000");
    assert_eq!(item.check_name(), "unused_variable");
    assert_eq!(item.description(), "unused variable: x");
    assert_eq!(item.severity(), Severity::Minor);
    assert_eq!(item.location().path(), "src/a.rs");
    assert_eq!(item.location().lines().begin(), 3);
}

#[test]
fn try_new_gives_the_same_finding() {
    let tried = CodeClimate::try_new(None, "dead code", "src/b.rs", 9, Level::Warning);
    let made = CodeClimate::new(None, "dead code", "src/b.rs", 9, Level::Warning);
    assert_eq!(tried, Some(made));
}

#[test]
fn findings_compare_by_their_fields() {
    let first = CodeClimate::new(None, "dead code", "src/b.rs", 9, Level::Warning);
    let same = first.clone();
    let other = CodeClimate::new(None, "dead code", "src/b.rs", 10, Level::Warning);
    assert_eq!(first, same);
    assert_ne!(first, other);
}
