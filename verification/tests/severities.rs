use codeclimate::{Level, Severity};

const LEVELS: [Level; 7] = [
    Level::Ice,
    Level::Error,
    Level::Warning,
    Level::FailureNote,
    Level::Note,
    Level::Help,
    Level::Unknown,
];

#[test]
fn help_and_note_are_info() {
    assert_eq!(Severity::from(Level::Help), Severity::Info);
    assert_eq!(Severity::from(Level::Note), Severity::Info);
}

#[test]
fn warning_is_minor() {
    assert_eq!(Severity::from(Level::Warning), Severity::Minor);
}

#[test]
fn error_is_major() {
    assert_eq!(Severity::from(Level::Error), Severity::Major);
}

#[test]
fn other_levels_are_info() {
    assert_eq!(Severity::from(Level::Ice), Severity::Info);
    assert_eq!(Severity::from(Level::FailureNote), Severity::Info);
    assert_eq!(Severity::from(Level::Unknown), Severity::Info);
}

#[test]
fn no_level_is_critical_or_blocker() {
    for level in LEVELS {
        let severity = Severity::from(level);
        assert_ne!(severity, Severity::Critical);
        assert_ne!(severity, Severity::Blocker);
        assert!(matches!(severity, Severity::Info | Severity::Minor | Severity::Major));
    }
}

#[test]
fn level_converts_through_into() {
    let severity: Severity = Level::Warning.into();
    assert_eq!(severity, Severity::Minor);
}

#[test]
fn tags_are_lower_case_names() {
    assert_eq!(Severity::Info.tag(), "info");
    assert_eq!(Severity::Minor.tag(), "minor");
    assert_eq!(Severity::Major.tag(), "major");
    assert_eq!(Severity::Critical.tag(), "critical");
    assert_eq!(Severity::Blocker.tag(), "blocker");
}

#[test]
fn tags_are_distinct() {
    let all = [
        Severity::Info,
        Severity::Minor,
        Severity::Major,
        Severity::Critical,
        Severity::Blocker,
    ];
    for (i, a) in all.iter().enumerate() {
        for (j, b) in all.iter().enumerate() {
            assert_eq!(i == j, a.tag() == b.tag());
        }
    }
}
