//! A finding in the shape of a Code Climate report item.

use crate::digest::is_sha1_hex;
use crate::fingerprint::{can_fingerprint, digest_text, fingerprint_of, fits, text};
use crate::severity::{severity_of, Level, Severity};
use vstd::prelude::*;

verus! {

/// The check name of a finding whose diagnostic carries no code.
pub const UNSET_CODE: &'static str = "unset code";

/// The lines that a finding affects.
#[derive(Debug, Clone, PartialEq, Eq)]
pub struct Lines {
    begin: usize,
}

/// The file and the lines that a finding affects.
#[derive(Debug, Clone, PartialEq, Eq)]
pub struct Location {
    path: String,
    lines: Lines,
}

/// One report item: a subset of the Code Climate format, as code-quality
/// tooling reads it.
#[derive(Debug, Clone, PartialEq, Eq)]
pub struct CodeClimate {
    check_name: String,
    description: String,
    fingerprint: String,
    severity: Severity,
    location: Location,
}

/// What a [`Lines`] holds.
pub struct LinesView {
    pub begin: nat,
}

/// What a [`Location`] holds.
pub struct LocationView {
    pub path: Seq<char>,
    pub lines: LinesView,
}

/// What a [`CodeClimate`] holds.
pub struct Finding {
    pub check_name: Seq<char>,
    pub description: Seq<char>,
    pub fingerprint: Seq<char>,
    pub severity: Severity,
    pub location: LocationView,
}

impl View for Lines {
    type V = LinesView;

    closed spec fn view(&self) -> LinesView {
        LinesView { begin: self.begin as nat }
    }
}

impl DeepView for Lines {
    type V = LinesView;

    open spec fn deep_view(&self) -> LinesView {
        self.view()
    }
}

impl View for Location {
    type V = LocationView;

    closed spec fn view(&self) -> LocationView {
        LocationView { path: self.path@, lines: self.lines@ }
    }
}

impl DeepView for Location {
    type V = LocationView;

    open spec fn deep_view(&self) -> LocationView {
        self.view()
    }
}

impl View for CodeClimate {
    type V = Finding;

    closed spec fn view(&self) -> Finding {
        Finding {
            check_name: self.check_name@,
            description: self.description@,
            fingerprint: self.fingerprint@,
            severity: self.severity,
            location: self.location@,
        }
    }
}

impl DeepView for CodeClimate {
    type V = Finding;

    open spec fn deep_view(&self) -> Finding {
        self.view()
    }
}

/// The check name of a finding: the code of its diagnostic, or
/// [`UNSET_CODE`] where the diagnostic has none.
pub open spec fn check_name_of(code: Option<Seq<char>>) -> Seq<char> {
    match code {
        Some(code) => code,
        None => UNSET_CODE@,
    }
}

/// The finding for one span of a diagnostic, with the given fingerprint.
pub open spec fn finding_with(
    code: Option<Seq<char>>,
    message: Seq<char>,
    path: Seq<char>,
    line: nat,
    level: Level,
    fingerprint: Seq<char>,
) -> Finding {
    Finding {
        check_name: check_name_of(code),
        description: message,
        fingerprint,
        severity: severity_of(level),
        location: LocationView { path, lines: LinesView { begin: line } },
    }
}

/// The finding for one span of a diagnostic. Its fingerprint is taken from
/// message, path and line, not from code or level.
pub open spec fn finding(
    code: Option<Seq<char>>,
    message: Seq<char>,
    path: Seq<char>,
    line: nat,
    level: Level,
) -> Finding {
    finding_with(code, message, path, line, level, fingerprint_of(message, path, line))
}

/// A finding of a diagnostic without a code has the check name
/// [`UNSET_CODE`]; one of a diagnostic with a code has that code.
pub proof fn lemma_check_name_falls_back(
    code: Seq<char>,
    message: Seq<char>,
    path: Seq<char>,
    line: nat,
    level: Level,
)
    ensures
        finding(None, message, path, line, level).check_name == UNSET_CODE@,
        finding(Some(code), message, path, line, level).check_name == code,
{
}

/// Two findings with the same message at the same place have the same
/// fingerprint, whatever their codes and levels are.
pub proof fn lemma_fingerprint_ignores_code_and_level(
    code1: Option<Seq<char>>,
    level1: Level,
    code2: Option<Seq<char>>,
    level2: Level,
    message: Seq<char>,
    path: Seq<char>,
    line: nat,
)
    ensures
        finding(code1, message, path, line, level1).fingerprint == finding(
            code2,
            message,
            path,
            line,
            level2,
        ).fingerprint,
{
}

impl Lines {
    /// The first affected line, counted from one.
    pub fn begin(&self) -> (begin: usize)
        ensures
            begin == self@.begin,
    {
        self.begin
    }
}

impl Location {
    /// The affected file.
    pub fn path(&self) -> (path: &str)
        ensures
            path@ == self@.path,
    {
        self.path.as_str()
    }

    /// The affected lines.
    pub fn lines(&self) -> (lines: &Lines)
        ensures
            lines@ == self@.lines,
    {
        &self.lines
    }
}

impl CodeClimate {
    /// The finding for one span of a diagnostic: `message` at `line` of
    /// `path`, raised by the check `check` at the level `severity`.
    pub fn new(check: Option<String>, message: &str, path: &str, line: usize, severity: Level) -> (item:
        Self)
        requires
            can_fingerprint(message@, path@, line as nat),
        ensures
            item@ == finding(check.deep_view(), message@, path@, line as nat, severity),
            is_sha1_hex(item@.fingerprint),
    {
        let fingerprint = Self::calculate_fingerprint(message, path, line);
        Self::with_fingerprint(check, message, path, line, severity, fingerprint)
    }

    /// The finding for one span of a diagnostic, or `None` where its text is
    /// too long to be fingerprinted.
    pub fn try_new(
        check: Option<String>,
        message: &str,
        path: &str,
        line: usize,
        severity: Level,
    ) -> (item: Option<Self>)
        ensures
            item.is_some() == can_fingerprint(message@, path@, line as nat),
            item.is_some() ==> item.unwrap()@ == finding(
                check.deep_view(),
                message@,
                path@,
                line as nat,
                severity,
            ),
            item.is_some() ==> is_sha1_hex(item.unwrap()@.fingerprint),
    {
        if fits(message, path, line) {
            Some(Self::new(check, message, path, line, severity))
        } else {
            None
        }
    }

    /// The finding for one span of a diagnostic, with a fingerprint that was
    /// computed before.
    pub fn with_fingerprint(
        check: Option<String>,
        message: &str,
        path: &str,
        line: usize,
        severity: Level,
        fingerprint: String,
    ) -> (item: Self)
        ensures
            item@ == finding_with(
                check.deep_view(),
                message@,
                path@,
                line as nat,
                severity,
                fingerprint@,
            ),
    {
        let check_name = match check {
            Some(code) => code,
            None => String::from_str(UNSET_CODE),
        };
        Self {
            check_name,
            description: String::from_str(message),
            fingerprint,
            location: Location { path: String::from_str(path), lines: Lines { begin: line } },
            severity: Severity::from(severity),
        }
    }

    /// The fingerprint of a finding: the SHA-1 of message, file name and
    /// affected line, joined by hyphens, in hexadecimal.
    pub fn calculate_fingerprint(message: &str, file: &str, line: usize) -> (fingerprint: String)
        requires
            can_fingerprint(message@, file@, line as nat),
        ensures
            fingerprint@ == fingerprint_of(message@, file@, line as nat),
            is_sha1_hex(fingerprint@),
    {
        let text = text(message, file, line);
        digest_text(text.as_str())
    }

    /// The name of the check that raised the finding.
    pub fn check_name(&self) -> (check_name: &str)
        ensures
            check_name@ == self@.check_name,
    {
        self.check_name.as_str()
    }

    /// The message of the diagnostic, word for word.
    pub fn description(&self) -> (description: &str)
        ensures
            description@ == self@.description,
    {
        self.description.as_str()
    }

    /// The identity of the finding, by which it is found again in a later
    /// report.
    pub fn fingerprint(&self) -> (fingerprint: &str)
        ensures
            fingerprint@ == self@.fingerprint,
    {
        self.fingerprint.as_str()
    }

    /// How severe the finding is.
    pub fn severity(&self) -> (severity: Severity)
        ensures
            severity == self@.severity,
    {
        self.severity
    }

    /// Where the finding is.
    pub fn location(&self) -> (location: &Location)
        ensures
            location@ == self@.location,
    {
        &self.location
    }
}

} // verus!
