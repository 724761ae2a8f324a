//! The fluent builder of a diagnostic: a title, then source excerpts and
//! help notes in call order, then rendering.

use crate::document::{Document, DocumentView, Excerpt, ExcerptView, Notice, NoticeView, Severity, SpanLabel, SpanLabelView};
use crate::render::{render_document, rendered};
use vstd::prelude::*;

verus! {

/// Why a document could not be rendered.
#[derive(Clone, Copy, Debug, PartialEq, Eq, Structural)]
pub enum RenderError {
    /// An annotation range ends before it starts, or past the end of its
    /// excerpt's source.
    InvalidRange,
    /// An excerpt's gutter would count lines past `usize::MAX`.
    LineNumberOverflow,
}

/// The title of a fresh diagnostic: an error with `label`.
pub open spec fn title_notice(label: Seq<char>) -> NoticeView {
    NoticeView { label: Some(label), severity: Severity::Error }
}

/// A document with a title and nothing else.
pub open spec fn titled(label: Seq<char>) -> DocumentView {
    DocumentView { title: Some(title_notice(label)), slices: Seq::empty(), footer: Seq::empty() }
}

/// The excerpt that one `error` call adds: folded, without origin, with one
/// error annotation over `[start, end)`.
pub open spec fn error_excerpt(
    line_start: usize,
    start: usize,
    end: usize,
    source: Seq<char>,
    label: Seq<char>,
) -> ExcerptView {
    ExcerptView {
        source,
        line_start,
        origin: None,
        fold: true,
        annotations: seq![SpanLabelView { start, end, label, severity: Severity::Error }],
    }
}

/// The footer entry that one `help` call adds.
pub open spec fn help_notice(label: Seq<char>) -> NoticeView {
    NoticeView { label: Some(label), severity: Severity::Help }
}

impl DocumentView {
    /// The document with `e` appended to its excerpts.
    pub open spec fn push_excerpt(self, e: ExcerptView) -> DocumentView {
        DocumentView { slices: self.slices.push(e), ..self }
    }

    /// The document with `n` appended to its footer.
    pub open spec fn push_footer(self, n: NoticeView) -> DocumentView {
        DocumentView { footer: self.footer.push(n), ..self }
    }
}

/// What rendering a document yields: the first failed check, else the text.
pub open spec fn render_outcome(doc: DocumentView) -> Result<Seq<char>, RenderError> {
    if !doc.ranges_valid() {
        Err(RenderError::InvalidRange)
    } else if !doc.line_numbers_fit() {
        Err(RenderError::LineNumberOverflow)
    } else {
        Ok(rendered(doc))
    }
}

/// An error formatter.
pub struct Error {
    snippet: Document,
}

impl View for Error {
    type V = DocumentView;

    closed spec fn view(&self) -> DocumentView {
        self.snippet@
    }
}

fn ranges_valid(doc: &Document) -> (r: bool)
    ensures
        r == doc@.ranges_valid(),
{
    let mut i: usize = 0;
    while i < doc.slices.len()
        invariant
            i <= doc.slices@.len(),
            forall|m: int| 0 <= m < i ==> (#[trigger] doc@.slices[m]).ranges_valid(),
        decreases doc.slices@.len() - i,
    {
        let excerpt = &doc.slices[i];
        let chars = excerpt.source.as_str().unicode_len();
        let spans = &excerpt.annotations;
        let mut j: usize = 0;
        while j < spans.len()
            invariant
                i < doc.slices@.len(),
                excerpt == doc.slices@[i as int],
                spans == excerpt.annotations,
                chars == excerpt.source@.len(),
                j <= spans@.len(),
                forall|m: int| 0 <= m < j ==> #[trigger] spans@[m].start <= spans@[m].end <= chars,
            decreases spans@.len() - j,
        {
            assert(doc@.slices[i as int].annotations[j as int] == spans@[j as int]@);
            if spans[j].end < spans[j].start || spans[j].end > chars {
                let ghost e = doc@.slices[i as int];
                assert(!(e.annotations[j as int].start <= e.annotations[j as int].end <= e.source.len()));
                assert(!doc@.slices[i as int].ranges_valid());
                return false;
            }
            j += 1;
        }
        assert forall|m: int| 0 <= m < doc@.slices[i as int].annotations.len() implies
            #[trigger] doc@.slices[i as int].annotations[m].start <= doc@.slices[i as int].annotations[m].end
                <= doc@.slices[i as int].source.len() by {
            assert(doc@.slices[i as int].annotations[m] == spans@[m]@);
            assert(spans@[m].start <= spans@[m].end <= chars);
        }
        assert(doc@.slices[i as int].ranges_valid());
        i += 1;
    }
    true
}

fn line_numbers_fit(doc: &Document) -> (r: bool)
    ensures
        r == doc@.line_numbers_fit(),
{
    let mut i: usize = 0;
    while i < doc.slices.len()
        invariant
            i <= doc.slices@.len(),
            forall|m: int| 0 <= m < i ==> (#[trigger] doc@.slices[m]).line_numbers_fit(),
        decreases doc.slices@.len() - i,
    {
        let chars = doc.slices[i].source.as_str().unicode_len();
        if chars > usize::MAX - doc.slices[i].line_start {
            assert(!doc@.slices[i as int].line_numbers_fit());
            return false;
        }
        assert(doc@.slices[i as int].line_numbers_fit());
        i += 1;
    }
    true
}

impl Error {
    /// Create a new `Error` formatter whose title is an error with `label`.
    pub fn new(label: String) -> (r: Self)
        ensures
            r@ == titled(label@),
    {
        let title = Notice { label: Some(label), severity: Severity::Error };
        let r = Self { snippet: Document { title: Some(title), slices: Vec::new(), footer: Vec::new() } };
        assert(r@.title == titled(label@).title);
        assert(r@.slices =~= titled(label@).slices);
        assert(r@.footer =~= titled(label@).footer);
        r
    }

    /// Pass a new error to the formatter: one excerpt of `source`, numbered
    /// from `line_start`, with `[start, end)` marked and labelled.
    pub fn error(self, line_start: usize, start: usize, end: usize, source: String, label: String) -> (r: Self)
        ensures
            r@ == self@.push_excerpt(error_excerpt(line_start, start, end, source@, label@)),
    {
        let ghost before = self@;
        let span = SpanLabel { start, end, label, severity: Severity::Error };
        let mut annotations: Vec<SpanLabel> = Vec::new();
        annotations.push(span);
        let excerpt = Excerpt { source, line_start, origin: None, fold: true, annotations };
        let ghost added = excerpt@;
        assert(added.annotations =~= seq![span@]);
        assert(added =~~= error_excerpt(line_start, start, end, excerpt.source@, span.label@));
        let mut r = self;
        r.snippet.slices.push(excerpt);
        assert(r@.slices =~= before.slices.push(added));
        r
    }

    /// Create a new footer line of help with `label`.
    pub fn help(self, label: String) -> (r: Self)
        ensures
            r@ == self@.push_footer(help_notice(label@)),
    {
        let ghost before = self@;
        let note = Notice { label: Some(label), severity: Severity::Help };
        let mut r = self;
        r.snippet.footer.push(note);
        assert(r@.footer =~= before.footer.push(help_notice(label@)));
        r
    }

    /// The document assembled so far.
    pub fn document(&self) -> (r: &Document)
        ensures
            r@ == self@,
    {
        &self.snippet
    }

    /// Render the diagnostic, or say why its annotations cannot be laid out.
    pub fn to_string(self) -> (r: Result<String, RenderError>)
        ensures
            match r {
                Ok(text) => render_outcome(self@) == Ok::<Seq<char>, RenderError>(text@),
                Err(e) => render_outcome(self@) == Err::<Seq<char>, RenderError>(e),
            },
    {
        if !ranges_valid(&self.snippet) {
            return Err(RenderError::InvalidRange);
        }
        assert forall|i: int| 0 <= i < self@.slices.len() implies #[trigger] self@.slices[i].ranges_forward() by {
            assert(self@.slices[i].ranges_valid());
            assert forall|j: int| 0 <= j < self@.slices[i].annotations.len() implies
                #[trigger] self@.slices[i].annotations[j].start <= self@.slices[i].annotations[j].end by {
                assert(self@.slices[i].annotations[j].start <= self@.slices[i].annotations[j].end
                    <= self@.slices[i].source.len());
            }
        }
        if !line_numbers_fit(&self.snippet) {
            return Err(RenderError::LineNumberOverflow);
        }
        Ok(render_document(&self.snippet))
    }
}

} // verus!
