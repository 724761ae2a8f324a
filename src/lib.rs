//! Builds compiler-style diagnostic messages: a title, annotated source
//! excerpts and footer notes, rendered to text by `annotate_snippets`.

mod builder;
mod calls;
mod cursor;
mod document;
mod render;

pub use builder::{
    error_excerpt, help_notice, render_outcome, title_notice, titled, Error, RenderError,
};
pub use calls::{
    apply_call, apply_calls, excerpts_of, helps_of, lemma_backward_range_reported,
    lemma_calls_keep_order, lemma_range_past_source_reported, lemma_same_calls_same_outcome, lemma_title_only_renders, Call,
};
pub use cursor::Seeker;
pub use document::{
    text_view, Document, DocumentView, Excerpt, ExcerptView, Notice, NoticeView, Severity,
    SpanLabel, SpanLabelView,
};
pub use render::{render_document, rendered};
