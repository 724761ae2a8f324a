//! Rendering through `annotate_snippets`: the document is rebuilt as that
//! crate's input types by verified code, and only the final layout is trusted.

use crate::document::{text_view, Document, DocumentView, Excerpt, ExcerptView, Notice, NoticeView, Severity, SpanLabel, SpanLabelView};
use annotate_snippets::display_list::DisplayList;
use annotate_snippets::formatter::DisplayListFormatter;
use annotate_snippets::snippet;
use vstd::prelude::*;

verus! {

#[verifier::external_type_specification]
pub struct ExAnnotationType(snippet::AnnotationType);

#[verifier::external_type_specification]
pub struct ExAnnotation(snippet::Annotation);

#[verifier::external_type_specification]
pub struct ExSourceAnnotation(snippet::SourceAnnotation);

#[verifier::external_type_specification]
pub struct ExSlice(snippet::Slice);

#[verifier::external_type_specification]
pub struct ExSnippet(snippet::Snippet);

pub open spec fn severity_of(t: snippet::AnnotationType) -> Severity {
    match t {
        snippet::AnnotationType::Error => Severity::Error,
        snippet::AnnotationType::Warning => Severity::Warning,
        snippet::AnnotationType::Info => Severity::Info,
        snippet::AnnotationType::Note => Severity::Note,
        snippet::AnnotationType::Help => Severity::Help,
    }
}

pub open spec fn notice_of(a: snippet::Annotation) -> NoticeView {
    NoticeView { label: text_view(a.label), severity: severity_of(a.annotation_type) }
}

pub open spec fn span_of(a: snippet::SourceAnnotation) -> SpanLabelView {
    SpanLabelView {
        start: a.range.0,
        end: a.range.1,
        label: a.label@,
        severity: severity_of(a.annotation_type),
    }
}

pub open spec fn excerpt_of(s: snippet::Slice) -> ExcerptView {
    ExcerptView {
        source: s.source@,
        line_start: s.line_start,
        origin: text_view(s.origin),
        fold: s.fold,
        annotations: s.annotations@.map_values(|a: snippet::SourceAnnotation| span_of(a)),
    }
}

/// What an `annotate_snippets` input stands for in this library's model.
pub open spec fn document_of(s: snippet::Snippet) -> DocumentView {
    DocumentView {
        title: match s.title {
            Some(t) => Some(notice_of(t)),
            None => None,
        },
        slices: s.slices@.map_values(|x: snippet::Slice| excerpt_of(x)),
        footer: s.footer@.map_values(|a: snippet::Annotation| notice_of(a)),
    }
}

/// No title or footer line carries an error code, which the model leaves out.
pub open spec fn without_codes(s: snippet::Snippet) -> bool {
    &&& (s.title matches Some(t) ==> t.id.is_none())
    &&& forall|i: int| 0 <= i < s.footer@.len() ==> (#[trigger] s.footer@[i]).id.is_none()
}

/// The text that `annotate_snippets` lays out for a document.
pub uninterp spec fn rendered(doc: DocumentView) -> Seq<char>;

/// Relies on `DisplayList::from` and `DisplayListFormatter::format` of
/// annotate_snippets: the text is a function of the snippet alone, and
/// neither call panics when every annotation range runs forward and the
/// gutter's line numbers fit in `usize`.
#[verifier::external_body]
fn format_snippet(snip: snippet::Snippet) -> (r: String)
    requires
        without_codes(snip),
        document_of(snip).ranges_forward(),
        document_of(snip).line_numbers_fit(),
    ensures
        r@ == rendered(document_of(snip)),
{
    DisplayListFormatter::new(true, false).format(&DisplayList::from(snip))
}

fn outside_severity(s: Severity) -> (r: snippet::AnnotationType)
    ensures
        severity_of(r) == s,
{
    match s {
        Severity::Error => snippet::AnnotationType::Error,
        Severity::Warning => snippet::AnnotationType::Warning,
        Severity::Info => snippet::AnnotationType::Info,
        Severity::Note => snippet::AnnotationType::Note,
        Severity::Help => snippet::AnnotationType::Help,
    }
}

fn outside_notice(n: &Notice) -> (r: snippet::Annotation)
    ensures
        notice_of(r) == n@,
        r.id.is_none(),
{
    let label = match &n.label {
        Some(l) => Some(l.clone()),
        None => None,
    };
    snippet::Annotation { id: None, label, annotation_type: outside_severity(n.severity) }
}

fn outside_span(a: &SpanLabel) -> (r: snippet::SourceAnnotation)
    ensures
        span_of(r) == a@,
{
    snippet::SourceAnnotation {
        range: (a.start, a.end),
        label: a.label.clone(),
        annotation_type: outside_severity(a.severity),
    }
}

fn outside_excerpt(e: &Excerpt) -> (r: snippet::Slice)
    ensures
        excerpt_of(r) == e@,
{
    let mut annotations: Vec<snippet::SourceAnnotation> = Vec::new();
    let mut j: usize = 0;
    while j < e.annotations.len()
        invariant
            j <= e.annotations@.len(),
            annotations@.len() == j,
            forall|m: int| 0 <= m < j ==> span_of(#[trigger] annotations@[m]) == e.annotations@[m]@,
        decreases e.annotations@.len() - j,
    {
        annotations.push(outside_span(&e.annotations[j]));
        j += 1;
    }
    assert(annotations@.map_values(|a: snippet::SourceAnnotation| span_of(a)) =~= e@.annotations);
    let origin = match &e.origin {
        Some(o) => Some(o.clone()),
        None => None,
    };
    snippet::Slice {
        source: e.source.clone(),
        line_start: e.line_start,
        origin,
        fold: e.fold,
        annotations,
    }
}

fn outside_snippet(doc: &Document) -> (r: snippet::Snippet)
    ensures
        document_of(r) == doc@,
        without_codes(r),
{
    let title = match &doc.title {
        Some(t) => Some(outside_notice(t)),
        None => None,
    };
    let mut slices: Vec<snippet::Slice> = Vec::new();
    let mut i: usize = 0;
    while i < doc.slices.len()
        invariant
            i <= doc.slices@.len(),
            slices@.len() == i,
            forall|m: int| 0 <= m < i ==> excerpt_of(#[trigger] slices@[m]) == doc.slices@[m]@,
        decreases doc.slices@.len() - i,
    {
        slices.push(outside_excerpt(&doc.slices[i]));
        i += 1;
    }
    assert(slices@.map_values(|x: snippet::Slice| excerpt_of(x)) =~= doc@.slices);
    let mut footer: Vec<snippet::Annotation> = Vec::new();
    let mut k: usize = 0;
    while k < doc.footer.len()
        invariant
            k <= doc.footer@.len(),
            footer@.len() == k,
            forall|m: int| 0 <= m < k ==> notice_of(#[trigger] footer@[m]) == doc.footer@[m]@,
            forall|m: int| 0 <= m < footer@.len() ==> (#[trigger] footer@[m]).id.is_none(),
        decreases doc.footer@.len() - k,
    {
        footer.push(outside_notice(&doc.footer[k]));
        k += 1;
    }
    assert(footer@.map_values(|a: snippet::Annotation| notice_of(a)) =~= doc@.footer);
    let r = snippet::Snippet { title, footer, slices };
    assert(document_of(r) =~= doc@);
    r
}

/// Lays out `doc` as text.
pub fn render_document(doc: &Document) -> (r: String)
    requires
        doc@.ranges_forward(),
        doc@.line_numbers_fit(),
    ensures
        r@ == rendered(doc@),
{
    format_snippet(outside_snippet(doc))
}

} // verus!
