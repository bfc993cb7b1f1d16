//! One timed unit of work within a trace.

use vstd::prelude::*;

verus! {

/// A span: times are milliseconds since the Unix epoch.
pub struct Span {
    pub span_id: String,
    pub parent_id: Option<String>,
    pub name: String,
    pub start_ms: i64,
    pub end_ms: Option<i64>,
    pub duration_ms: Option<u64>,
}

pub struct SpanView {
    pub span_id: Seq<char>,
    pub parent_id: Option<Seq<char>>,
    pub name: Seq<char>,
    pub start: int,
    pub end: Option<int>,
    pub duration: Option<int>,
}

pub open spec fn opt_text(o: Option<String>) -> Option<Seq<char>> {
    match o {
        Some(s) => Some(s@),
        None => None,
    }
}

impl View for Span {
    type V = SpanView;

    open spec fn view(&self) -> SpanView {
        SpanView {
            span_id: self.span_id@,
            parent_id: opt_text(self.parent_id),
            name: self.name@,
            start: self.start_ms as int,
            end: match self.end_ms {
                Some(e) => Some(e as int),
                None => None,
            },
            duration: match self.duration_ms {
                Some(d) => Some(d as int),
                None => None,
            },
        }
    }
}

impl SpanView {
    /// A duration is recorded exactly when an end is, and it is the end
    /// minus the start, never negative.
    pub open spec fn wf(self) -> bool {
        &&& (self.duration is Some <==> self.end is Some)
        &&& self.end matches Some(e) ==> e >= self.start && self.duration == Some(e - self.start)
    }

    pub open spec fn is_closed(self) -> bool {
        self.end is Some
    }
}

/// A span just opened at `start`.
pub open spec fn opened_span(
    span_id: Seq<char>,
    parent_id: Option<Seq<char>>,
    name: Seq<char>,
    start: int,
) -> SpanView {
    SpanView { span_id, parent_id, name, start, end: None, duration: None }
}

/// `s` closed at the clock reading `now`; a clock reading earlier than the
/// start ends the span at its start, so the duration is never negative.
pub open spec fn closed_span(s: SpanView, now: int) -> SpanView {
    let end = if now >= s.start { now } else { s.start };
    SpanView { end: Some(end), duration: Some(end - s.start), ..s }
}

fn copy_text(o: &Option<String>) -> (r: Option<String>)
    ensures
        opt_text(r) == opt_text(*o),
{
    match o {
        Some(s) => Some(s.clone()),
        None => None,
    }
}

impl Span {
    pub fn new(span_id: String, parent_id: Option<String>, name: String, start_ms: i64) -> (r: Span)
        ensures
            r@ == opened_span(span_id@, opt_text(parent_id), name@, start_ms as int),
    {
        Span { span_id, parent_id, name, start_ms, end_ms: None, duration_ms: None }
    }

    pub fn is_closed(&self) -> (r: bool)
        ensures
            r == self@.is_closed(),
    {
        self.end_ms.is_some()
    }

    /// Ends the span at the clock reading `now`.
    pub fn close_at(&mut self, now: i64)
        requires
            !old(self)@.is_closed(),
        ensures
            final(self)@ == closed_span(old(self)@, now as int),
    {
        let end: i64 = if now >= self.start_ms { now } else { self.start_ms };
        let d: i128 = end as i128 - self.start_ms as i128;
        self.end_ms = Some(end);
        self.duration_ms = Some(d as u64);
    }

    /// A copy with the same fields.
    pub fn copy(&self) -> (r: Span)
        ensures
            r@ == self@,
    {
        Span {
            span_id: self.span_id.clone(),
            parent_id: copy_text(&self.parent_id),
            name: self.name.clone(),
            start_ms: self.start_ms,
            end_ms: self.end_ms,
            duration_ms: self.duration_ms,
        }
    }
}

/// Closing keeps a span well formed.
pub proof fn lemma_closed_span_wf(s: SpanView, now: int)
    requires
        s.wf(),
    ensures
        closed_span(s, now).wf(),
        closed_span(s, now).span_id == s.span_id,
{
}

} // verus!
