//! The level of a diagnostic and the severity of a finding.

use vstd::prelude::*;

verus! {

/// The level that the compiler gave a diagnostic.
#[derive(Debug, Clone, Copy, PartialEq, Eq)]
pub enum Level {
    /// Internal compiler error.
    Ice,
    Error,
    Warning,
    FailureNote,
    Note,
    Help,
    /// A level that this library does not know.
    Unknown,
}

/// The severity of a finding, as a Code Climate report spells it.
#[derive(Debug, Clone, Copy, PartialEq, Eq)]
pub enum Severity {
    Info,
    Minor,
    Major,
    Critical,
    Blocker,
}

/// The severity that a diagnostic of the given level is reported with.
///
/// Errors are major, warnings minor; everything else, an unknown level
/// included, is only information.
pub open spec fn severity_of(level: Level) -> Severity {
    match level {
        Level::Error => Severity::Major,
        Level::Warning => Severity::Minor,
        _ => Severity::Info,
    }
}

/// The lower-case tag of a severity in a serialized report.
pub open spec fn severity_tag(severity: Severity) -> Seq<char> {
    match severity {
        Severity::Info => seq!['i', 'n', 'f', 'o'],
        Severity::Minor => seq!['m', 'i', 'n', 'o', 'r'],
        Severity::Major => seq!['m', 'a', 'j', 'o', 'r'],
        Severity::Critical => seq!['c', 'r', 'i', 't', 'i', 'c', 'a', 'l'],
        Severity::Blocker => seq!['b', 'l', 'o', 'c', 'k', 'e', 'r'],
    }
}

impl vstd::std_specs::convert::FromSpecImpl<Level> for Severity {
    open spec fn obeys_from_spec() -> bool {
        true
    }

    open spec fn from_spec(level: Level) -> Severity {
        severity_of(level)
    }
}

impl From<Level> for Severity {
    fn from(value: Level) -> (severity: Severity)
        ensures
            severity == severity_of(value),
    {
        match value {
            Level::Help | Level::Note => Severity::Info,
            Level::Warning => Severity::Minor,
            Level::Error => Severity::Major,
            _ => Severity::Info,
        }
    }
}

impl Severity {
    /// The tag of this severity in a serialized report: its name in lower case.
    pub fn tag(&self) -> (tag: &'static str)
        ensures
            tag@ == severity_tag(*self),
    {
        proof {
            reveal_strlit("info");
            reveal_strlit("minor");
            reveal_strlit("major");
            reveal_strlit("critical");
            reveal_strlit("blocker");
        }
        let tag = match self {
            Severity::Info => "info",
            Severity::Minor => "minor",
            Severity::Major => "major",
            Severity::Critical => "critical",
            Severity::Blocker => "blocker",
        };
        assert(tag@ =~= severity_tag(*self));
        tag
    }
}

/// No level is reported as critical or as a blocker: the severity of a
/// diagnostic is always one of info, minor and major.
pub proof fn lemma_severity_is_at_most_major(level: Level)
    ensures
        severity_of(level) != Severity::Critical,
        severity_of(level) != Severity::Blocker,
        severity_of(level) == Severity::Info || severity_of(level) == Severity::Minor
            || severity_of(level) == Severity::Major,
{
}

/// Distinct severities carry distinct tags, so a report can be read back.
pub proof fn lemma_severity_tag_is_injective(a: Severity, b: Severity)
    requires
        severity_tag(a) == severity_tag(b),
    ensures
        a == b,
{
    if a != b {
        assert(severity_tag(a)[1] != severity_tag(b)[1] || severity_tag(a).len() != severity_tag(
            b,
        ).len());
    }
}

} // verus!
