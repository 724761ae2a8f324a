//! The diagnostic document: a title, ordered source slices and footer notes.

use vstd::prelude::*;

verus! {

/// How serious an annotation is; it selects the marker and prefix of the output.
#[derive(Clone, Copy, Debug, PartialEq, Eq, Structural)]
pub enum Severity {
    Error,
    Warning,
    Info,
    Note,
    Help,
}

/// A title or footer line: an optional text and a severity.
pub struct Notice {
    pub label: Option<String>,
    pub severity: Severity,
}

/// A labelled half-open range `[start, end)` of positions in a slice's source.
pub struct SpanLabel {
    pub start: usize,
    pub end: usize,
    pub label: String,
    pub severity: Severity,
}

/// One excerpt of source text, shown with its own line-number gutter.
pub struct Excerpt {
    pub source: String,
    pub line_start: usize,
    pub origin: Option<String>,
    pub fold: bool,
    pub annotations: Vec<SpanLabel>,
}

/// A whole diagnostic, ready to be rendered.
pub struct Document {
    pub title: Option<Notice>,
    pub slices: Vec<Excerpt>,
    pub footer: Vec<Notice>,
}

/// What a `Notice` holds, as plain values.
pub struct NoticeView {
    pub label: Option<Seq<char>>,
    pub severity: Severity,
}

/// What a `SpanLabel` holds, as plain values.
pub struct SpanLabelView {
    pub start: usize,
    pub end: usize,
    pub label: Seq<char>,
    pub severity: Severity,
}

/// What an `Excerpt` holds, as plain values.
pub struct ExcerptView {
    pub source: Seq<char>,
    pub line_start: usize,
    pub origin: Option<Seq<char>>,
    pub fold: bool,
    pub annotations: Seq<SpanLabelView>,
}

/// What a `Document` holds, as plain values.
pub struct DocumentView {
    pub title: Option<NoticeView>,
    pub slices: Seq<ExcerptView>,
    pub footer: Seq<NoticeView>,
}

/// The characters of an optional text.
pub open spec fn text_view(s: Option<String>) -> Option<Seq<char>> {
    match s {
        Some(t) => Some(t@),
        None => None,
    }
}

impl View for Notice {
    type V = NoticeView;

    open spec fn view(&self) -> NoticeView {
        NoticeView { label: text_view(self.label), severity: self.severity }
    }
}

impl View for SpanLabel {
    type V = SpanLabelView;

    open spec fn view(&self) -> SpanLabelView {
        SpanLabelView {
            start: self.start,
            end: self.end,
            label: self.label@,
            severity: self.severity,
        }
    }
}

impl View for Excerpt {
    type V = ExcerptView;

    open spec fn view(&self) -> ExcerptView {
        ExcerptView {
            source: self.source@,
            line_start: self.line_start,
            origin: text_view(self.origin),
            fold: self.fold,
            annotations: self.annotations@.map_values(|a: SpanLabel| a@),
        }
    }
}

impl View for Document {
    type V = DocumentView;

    open spec fn view(&self) -> DocumentView {
        DocumentView {
            title: match self.title {
                Some(t) => Some(t@),
                None => None,
            },
            slices: self.slices@.map_values(|s: Excerpt| s@),
            footer: self.footer@.map_values(|a: Notice| a@),
        }
    }
}

impl ExcerptView {
    /// Every annotation range runs forward: `start <= end`.
    pub open spec fn ranges_forward(self) -> bool {
        forall|j: int|
            0 <= j < self.annotations.len() ==> #[trigger] self.annotations[j].start
                <= self.annotations[j].end
    }

    /// Every annotation range runs forward and ends within the source:
    /// `start <= end <= ` the source's length in characters.
    pub open spec fn ranges_valid(self) -> bool {
        forall|j: int|
            0 <= j < self.annotations.len() ==> (#[trigger] self.annotations[j]).start
                <= self.annotations[j].end && self.annotations[j].end <= self.source.len()
    }

    /// The line numbers of the gutter stay within `usize`: a slice never has
    /// more lines than characters.
    pub open spec fn line_numbers_fit(self) -> bool {
        self.line_start + self.source.len() <= usize::MAX
    }
}

impl DocumentView {
    /// Every annotation of every excerpt runs forward.
    pub open spec fn ranges_forward(self) -> bool {
        forall|i: int| 0 <= i < self.slices.len() ==> #[trigger] self.slices[i].ranges_forward()
    }

    /// Every annotation of every excerpt runs forward and ends within its source.
    pub open spec fn ranges_valid(self) -> bool {
        forall|i: int| 0 <= i < self.slices.len() ==> #[trigger] self.slices[i].ranges_valid()
    }

    /// Every excerpt's line numbers fit in `usize`.
    pub open spec fn line_numbers_fit(self) -> bool {
        forall|i: int| 0 <= i < self.slices.len() ==> #[trigger] self.slices[i].line_numbers_fit()
    }
}

} // verus!
