//! Sequences of builder calls, and what they make of a document.

use crate::builder::{error_excerpt, help_notice, render_outcome, titled, RenderError};
use crate::document::{DocumentView, ExcerptView, NoticeView};
use crate::render::rendered;
use vstd::prelude::*;

verus! {

/// One call of the builder, with the views of its arguments.
pub enum Call {
    Error { line_start: usize, start: usize, end: usize, source: Seq<char>, label: Seq<char> },
    Help { label: Seq<char> },
}

/// The document after one call, as `Error::error` and `Error::help` state it.
pub open spec fn apply_call(doc: DocumentView, c: Call) -> DocumentView {
    match c {
        Call::Error { line_start, start, end, source, label } => doc.push_excerpt(
            error_excerpt(line_start, start, end, source, label),
        ),
        Call::Help { label } => doc.push_footer(help_notice(label)),
    }
}

/// The document after the calls, made in order.
pub open spec fn apply_calls(doc: DocumentView, calls: Seq<Call>) -> DocumentView
    decreases calls.len(),
{
    if calls.len() == 0 {
        doc
    } else {
        apply_call(apply_calls(doc, calls.drop_last()), calls.last())
    }
}

/// The excerpts that the `error` calls among `calls` ask for, in call order.
pub open spec fn excerpts_of(calls: Seq<Call>) -> Seq<ExcerptView>
    decreases calls.len(),
{
    if calls.len() == 0 {
        Seq::empty()
    } else {
        match calls.last() {
            Call::Error { line_start, start, end, source, label } => excerpts_of(
                calls.drop_last(),
            ).push(error_excerpt(line_start, start, end, source, label)),
            Call::Help { .. } => excerpts_of(calls.drop_last()),
        }
    }
}

/// The help notes that the `help` calls among `calls` ask for, in call order.
pub open spec fn helps_of(calls: Seq<Call>) -> Seq<NoticeView>
    decreases calls.len(),
{
    if calls.len() == 0 {
        Seq::empty()
    } else {
        match calls.last() {
            Call::Error { .. } => helps_of(calls.drop_last()),
            Call::Help { label } => helps_of(calls.drop_last()).push(help_notice(label)),
        }
    }
}

/// Whatever calls are made, the title stays, and the excerpts and the footer
/// are the old ones followed by those of the calls, in the order of the calls:
/// nothing is reordered, merged or dropped.
pub proof fn lemma_calls_keep_order(doc: DocumentView, calls: Seq<Call>)
    ensures
        apply_calls(doc, calls).title == doc.title,
        apply_calls(doc, calls).slices == doc.slices + excerpts_of(calls),
        apply_calls(doc, calls).footer == doc.footer + helps_of(calls),
    decreases calls.len(),
{
    if calls.len() > 0 {
        lemma_calls_keep_order(doc, calls.drop_last());
        let before = apply_calls(doc, calls.drop_last());
        match calls.last() {
            Call::Error { line_start, start, end, source, label } => {
                let e = error_excerpt(line_start, start, end, source, label);
                assert(before.slices.push(e) =~= doc.slices + excerpts_of(calls.drop_last()).push(e));
                assert(before.footer =~= doc.footer + helps_of(calls));
            },
            Call::Help { label } => {
                let n = help_notice(label);
                assert(before.footer.push(n) =~= doc.footer + helps_of(calls.drop_last()).push(n));
                assert(before.slices =~= doc.slices + excerpts_of(calls));
            },
        }
    } else {
        assert(doc.slices + Seq::<ExcerptView>::empty() =~= doc.slices);
        assert(doc.footer + Seq::<NoticeView>::empty() =~= doc.footer);
    }
}

/// Two builders started with the same title and given the same calls render
/// to the same outcome, text for text.
pub proof fn lemma_same_calls_same_outcome(label: Seq<char>, calls: Seq<Call>, a: DocumentView, b: DocumentView)
    requires
        a == apply_calls(titled(label), calls),
        b == apply_calls(titled(label), calls),
    ensures
        render_outcome(a) == render_outcome(b),
{
}

/// A document with nothing but its title always renders.
pub proof fn lemma_title_only_renders(label: Seq<char>)
    ensures
        render_outcome(titled(label)) == Ok::<Seq<char>, RenderError>(rendered(titled(label))),
{
}

/// An excerpt whose range ends before it starts is accepted by the builder,
/// and rendering then reports the range instead of failing otherwise.
pub proof fn lemma_backward_range_reported(
    doc: DocumentView,
    line_start: usize,
    start: usize,
    end: usize,
    source: Seq<char>,
    label: Seq<char>,
)
    requires
        end < start,
    ensures
        render_outcome(doc.push_excerpt(error_excerpt(line_start, start, end, source, label)))
            == Err::<Seq<char>, RenderError>(RenderError::InvalidRange),
{
    let d = doc.push_excerpt(error_excerpt(line_start, start, end, source, label));
    let k = d.slices.len() - 1;
    assert(d.slices[k].annotations[0].start > d.slices[k].annotations[0].end);
    assert(!d.slices[k].ranges_valid());
}

/// An excerpt whose range ends past the end of its source is accepted by the
/// builder, and rendering then reports the range instead of dropping it.
pub proof fn lemma_range_past_source_reported(
    doc: DocumentView,
    line_start: usize,
    start: usize,
    end: usize,
    source: Seq<char>,
    label: Seq<char>,
)
    requires
        end > source.len(),
    ensures
        render_outcome(doc.push_excerpt(error_excerpt(line_start, start, end, source, label)))
            == Err::<Seq<char>, RenderError>(RenderError::InvalidRange),
{
    let d = doc.push_excerpt(error_excerpt(line_start, start, end, source, label));
    let k = d.slices.len() - 1;
    let e = d.slices[k];
    assert(e == error_excerpt(line_start, start, end, source, label));
    assert(e.annotations[0].end > e.source.len());
    assert(!d.slices[k].ranges_valid());
}

} // verus!
