//! From a stream of build messages to the findings of a report.

use crate::codeclimate::{check_name_of, finding, CodeClimate, Finding, LinesView, LocationView};
use crate::digest::is_sha1_hex;
use crate::fingerprint::{can_fingerprint, fingerprint_of, fits};
use crate::severity::{severity_of, Level, Severity};
use vstd::prelude::*;

verus! {

/// One place in the source that a diagnostic points at.
#[derive(Debug, Clone, PartialEq, Eq)]
pub struct Span {
    /// The file, as the compiler names it.
    pub file_name: String,
    /// The line where the span starts, counted from one.
    pub line_start: usize,
}

/// A message of the compiler about the code it was given.
#[derive(Debug, Clone, PartialEq, Eq)]
pub struct Diagnostic {
    /// The message, in the compiler's words.
    pub message: String,
    /// The code of the lint or error, where there is one.
    pub code: Option<String>,
    pub level: Level,
    /// The places that the diagnostic points at, in the compiler's order.
    pub spans: Vec<Span>,
}

/// One message out of the stream that a build writes.
#[derive(Debug, Clone, PartialEq, Eq)]
pub enum Message {
    /// The compiler has something to say about the code.
    CompilerMessage(Diagnostic),
    /// Anything else: an artifact was built, a build script ran, the build
    /// ended, a line of plain text.
    Other,
}

/// What a [`Span`] holds.
pub struct SpanView {
    pub file_name: Seq<char>,
    pub line_start: nat,
}

/// What a [`Diagnostic`] holds.
pub struct DiagnosticView {
    pub message: Seq<char>,
    pub code: Option<Seq<char>>,
    pub level: Level,
    pub spans: Seq<SpanView>,
}

/// What a [`Message`] holds.
pub enum MessageView {
    CompilerMessage(DiagnosticView),
    Other,
}

impl View for Span {
    type V = SpanView;

    open spec fn view(&self) -> SpanView {
        SpanView { file_name: self.file_name@, line_start: self.line_start as nat }
    }
}

impl DeepView for Span {
    type V = SpanView;

    open spec fn deep_view(&self) -> SpanView {
        self.view()
    }
}

impl View for Diagnostic {
    type V = DiagnosticView;

    open spec fn view(&self) -> DiagnosticView {
        DiagnosticView {
            message: self.message@,
            code: self.code.deep_view(),
            level: self.level,
            spans: self.spans.deep_view(),
        }
    }
}

impl DeepView for Diagnostic {
    type V = DiagnosticView;

    open spec fn deep_view(&self) -> DiagnosticView {
        self.view()
    }
}

impl View for Message {
    type V = MessageView;

    open spec fn view(&self) -> MessageView {
        match self {
            Message::CompilerMessage(diagnostic) => MessageView::CompilerMessage(diagnostic@),
            Message::Other => MessageView::Other,
        }
    }
}

impl DeepView for Message {
    type V = MessageView;

    open spec fn deep_view(&self) -> MessageView {
        self.view()
    }
}

/// The findings of one diagnostic: one for each of its spans, in their order.
pub open spec fn diagnostic_findings(diagnostic: DiagnosticView) -> Seq<Finding> {
    Seq::new(
        diagnostic.spans.len(),
        |i: int|
            finding(
                diagnostic.code,
                diagnostic.message,
                diagnostic.spans[i].file_name,
                diagnostic.spans[i].line_start,
                diagnostic.level,
            ),
    )
}

/// The findings of one item of the stream. Only a compiler message has any:
/// a message of another kind has none, nor has a line that could not be read
/// as a message, which stands in the stream as `None`.
pub open spec fn item_findings(item: Option<MessageView>) -> Seq<Finding> {
    match item {
        Some(MessageView::CompilerMessage(diagnostic)) => diagnostic_findings(diagnostic),
        _ => Seq::empty(),
    }
}

/// The findings of a stream: those of its items, one after the other.
pub open spec fn stream_findings(stream: Seq<Option<MessageView>>) -> Seq<Finding>
    decreases stream.len(),
{
    if stream.len() == 0 {
        Seq::empty()
    } else {
        stream_findings(stream.drop_last()) + item_findings(stream.last())
    }
}

/// Whether every finding of a diagnostic can be fingerprinted.
pub open spec fn diagnostic_fits(diagnostic: DiagnosticView) -> bool {
    forall|i: int|
        0 <= i < diagnostic.spans.len() ==> can_fingerprint(
            diagnostic.message,
            (#[trigger] diagnostic.spans[i]).file_name,
            diagnostic.spans[i].line_start,
        )
}

/// Whether every finding of an item of the stream can be fingerprinted.
pub open spec fn item_fits(item: Option<MessageView>) -> bool {
    match item {
        Some(MessageView::CompilerMessage(diagnostic)) => diagnostic_fits(diagnostic),
        _ => true,
    }
}

/// Whether every finding of a stream can be fingerprinted.
pub open spec fn stream_fits(stream: Seq<Option<MessageView>>) -> bool {
    forall|i: int| 0 <= i < stream.len() ==> item_fits(#[trigger] stream[i])
}

/// Whether every fingerprint in a report has the shape of a SHA-1 digest in
/// hexadecimal.
pub open spec fn all_sha1_hex(findings: Seq<Finding>) -> bool {
    forall|i: int| 0 <= i < findings.len() ==> is_sha1_hex((#[trigger] findings[i]).fingerprint)
}

/// The number of spans of one item of the stream, where it is a compiler
/// message; zero for anything else.
pub open spec fn item_spans(item: Option<MessageView>) -> nat {
    match item {
        Some(MessageView::CompilerMessage(diagnostic)) => diagnostic.spans.len(),
        _ => 0,
    }
}

/// The number of spans of all compiler messages of a stream.
pub open spec fn stream_spans(stream: Seq<Option<MessageView>>) -> nat
    decreases stream.len(),
{
    if stream.len() == 0 {
        0
    } else {
        stream_spans(stream.drop_last()) + item_spans(stream.last())
    }
}

/// A diagnostic with `n` spans has `n` findings. All of them have the check
/// name, the description and the severity of the diagnostic; each has the
/// location of its own span, and the fingerprint of the message at that
/// location.
pub proof fn lemma_fan_out(diagnostic: DiagnosticView, i: int)
    requires
        0 <= i < diagnostic.spans.len(),
    ensures
        diagnostic_findings(diagnostic).len() == diagnostic.spans.len(),
        diagnostic_findings(diagnostic)[i].check_name == check_name_of(diagnostic.code),
        diagnostic_findings(diagnostic)[i].description == diagnostic.message,
        diagnostic_findings(diagnostic)[i].severity == severity_of(diagnostic.level),
        diagnostic_findings(diagnostic)[i].location == (LocationView {
            path: diagnostic.spans[i].file_name,
            lines: LinesView { begin: diagnostic.spans[i].line_start },
        }),
        diagnostic_findings(diagnostic)[i].fingerprint == fingerprint_of(
            diagnostic.message,
            diagnostic.spans[i].file_name,
            diagnostic.spans[i].line_start,
        ),
{
}

/// The findings of two streams in a row are those of the first followed by
/// those of the second.
pub proof fn lemma_stream_findings_concat(
    first: Seq<Option<MessageView>>,
    second: Seq<Option<MessageView>>,
)
    ensures
        stream_findings(first + second) == stream_findings(first) + stream_findings(second),
    decreases second.len(),
{
    if second.len() == 0 {
        assert(first + second =~= first);
        assert(stream_findings(first) + stream_findings(second) =~= stream_findings(first));
    } else {
        lemma_stream_findings_concat(first, second.drop_last());
        assert((first + second).drop_last() =~= first + second.drop_last());
        assert((first + second).last() == second.last());
        assert(stream_findings(first + second) =~= stream_findings(first) + stream_findings(
            second,
        ));
    }
}

/// An item that is no compiler message adds no finding, wherever it stands
/// in the stream: the report is the same with it and without it.
pub proof fn lemma_other_items_add_nothing(
    before: Seq<Option<MessageView>>,
    item: Option<MessageView>,
    after: Seq<Option<MessageView>>,
)
    requires
        !(item matches Some(MessageView::CompilerMessage(_))),
    ensures
        item_findings(item).len() == 0,
        stream_findings(before.push(item) + after) == stream_findings(before + after),
{
    assert(before.push(item).drop_last() =~= before);
    assert(stream_findings(before.push(item)) =~= stream_findings(before));
    lemma_stream_findings_concat(before.push(item), after);
    lemma_stream_findings_concat(before, after);
}

/// A report has one finding for each span of each compiler message of the
/// stream, and none besides.
pub proof fn lemma_stream_findings_len(stream: Seq<Option<MessageView>>)
    ensures
        stream_findings(stream).len() == stream_spans(stream),
    decreases stream.len(),
{
    if stream.len() > 0 {
        lemma_stream_findings_len(stream.drop_last());
    }
}

/// No finding of a report is critical or a blocker: each is info, minor or
/// major.
pub proof fn lemma_report_severities(stream: Seq<Option<MessageView>>, i: int)
    requires
        0 <= i < stream_findings(stream).len(),
    ensures
        stream_findings(stream)[i].severity != Severity::Critical,
        stream_findings(stream)[i].severity != Severity::Blocker,
    decreases stream.len(),
{
    if stream.len() > 0 {
        let earlier = stream_findings(stream.drop_last());
        if i < earlier.len() {
            lemma_report_severities(stream.drop_last(), i);
        }
    }
}

/// The report of an empty stream is empty.
pub proof fn lemma_empty_stream()
    ensures
        stream_findings(Seq::empty()) == Seq::<Finding>::empty(),
{
}

fn clone_code(code: &Option<String>) -> (copy: Option<String>)
    ensures
        copy.deep_view() == code.deep_view(),
{
    match code {
        Some(code) => Some(code.clone()),
        None => None,
    }
}

impl Diagnostic {
    /// Tells whether every finding of this diagnostic can be fingerprinted.
    pub fn fits(&self) -> (fits: bool)
        ensures
            fits == diagnostic_fits(self@),
    {
        let mut i: usize = 0;
        while i < self.spans.len()
            invariant
                i <= self.spans.len(),
                forall|j: int|
                    0 <= j < i ==> can_fingerprint(
                        self@.message,
                        (#[trigger] self@.spans[j]).file_name,
                        self@.spans[j].line_start,
                    ),
            decreases self.spans.len() - i,
        {
            let span = &self.spans[i];
            assert(self@.spans[i as int] == span@);
            if !fits(self.message.as_str(), span.file_name.as_str(), span.line_start) {
                return false;
            }
            i += 1;
        }
        true
    }

    /// The findings of this diagnostic: one for each of its spans, in their
    /// order. They share check name, description and severity; each has the
    /// location of its span, and the fingerprint that goes with it.
    pub fn findings(&self) -> (findings: Vec<CodeClimate>)
        requires
            diagnostic_fits(self@),
        ensures
            findings.deep_view() == diagnostic_findings(self@),
            all_sha1_hex(findings.deep_view()),
    {
        let mut findings: Vec<CodeClimate> = Vec::new();
        let mut i: usize = 0;
        while i < self.spans.len()
            invariant
                i <= self.spans.len(),
                diagnostic_fits(self@),
                findings@.len() == i,
                forall|j: int|
                    0 <= j < i ==> (#[trigger] findings@[j])@ == diagnostic_findings(self@)[j],
                forall|j: int| 0 <= j < i ==> is_sha1_hex((#[trigger] findings@[j])@.fingerprint),
            decreases self.spans.len() - i,
        {
            let span = &self.spans[i];
            assert(self@.spans[i as int] == span@);
            let item = CodeClimate::new(
                clone_code(&self.code),
                self.message.as_str(),
                span.file_name.as_str(),
                span.line_start,
                self.level,
            );
            findings.push(item);
            i += 1;
        }
        assert(findings.deep_view() =~= diagnostic_findings(self@));
        findings
    }
}

/// Tells whether every finding of a stream can be fingerprinted.
pub fn fits_all(stream: &Vec<Option<Message>>) -> (fits: bool)
    ensures
        fits == stream_fits(stream.deep_view()),
{
    let mut i: usize = 0;
    while i < stream.len()
        invariant
            i <= stream.len(),
            forall|j: int| 0 <= j < i ==> item_fits(#[trigger] stream.deep_view()[j]),
        decreases stream.len() - i,
    {
        assert(stream.deep_view()[i as int] == stream@[i as int].deep_view());
        match &stream[i] {
            Some(Message::CompilerMessage(diagnostic)) => {
                if !diagnostic.fits() {
                    return false;
                }
            },
            _ => {},
        }
        i += 1;
    }
    true
}

/// The findings of a stream of build messages, in the order of the stream.
///
/// Only compiler messages are taken up; messages of another kind, and lines
/// that could not be read as a message (`None`), are passed over. Each
/// compiler message gives one finding for each of its spans.
pub fn translate(stream: &Vec<Option<Message>>) -> (findings: Vec<CodeClimate>)
    requires
        stream_fits(stream.deep_view()),
    ensures
        findings.deep_view() == stream_findings(stream.deep_view()),
        all_sha1_hex(findings.deep_view()),
{
    let mut findings: Vec<CodeClimate> = Vec::new();
    let mut i: usize = 0;
    assert(stream.deep_view().take(0) =~= Seq::empty());
    while i < stream.len()
        invariant
            i <= stream.len(),
            stream_fits(stream.deep_view()),
            findings.deep_view() == stream_findings(stream.deep_view().take(i as int)),
            all_sha1_hex(findings.deep_view()),
        decreases stream.len() - i,
    {
        let ghost before = findings.deep_view();
        assert(stream.deep_view()[i as int] == stream@[i as int].deep_view());
        assert(item_fits(stream.deep_view()[i as int]));
        match &stream[i] {
            Some(Message::CompilerMessage(diagnostic)) => {
                let mut part = diagnostic.findings();
                let ghost added = part.deep_view();
                findings.append(&mut part);
                assert(findings.deep_view() =~= before + added);
            },
            _ => {
                assert(findings.deep_view() =~= before + Seq::<Finding>::empty());
            },
        }
        assert(stream.deep_view().take(i + 1).drop_last() =~= stream.deep_view().take(i as int));
        i += 1;
    }
    assert(stream.deep_view().take(stream.len() as int) =~= stream.deep_view());
    findings
}

/// The findings of a stream of build messages, or `None` where one of them
/// cannot be fingerprinted.
pub fn try_translate(stream: &Vec<Option<Message>>) -> (findings: Option<Vec<CodeClimate>>)
    ensures
        findings.is_some() == stream_fits(stream.deep_view()),
        findings.is_some() ==> findings.unwrap().deep_view() == stream_findings(
            stream.deep_view(),
        ),
        findings.is_some() ==> all_sha1_hex(findings.unwrap().deep_view()),
{
    if fits_all(stream) {
        Some(translate(stream))
    } else {
        None
    }
}

} // verus!
