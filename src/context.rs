//! A trace id bound to the ledger of its spans: the handle that a request's
//! handler and its sub-operations open and close spans through.

use vstd::prelude::*;
use crate::ids::{is_fresh_id_text, new_id};
use crate::ledger::{SpanLedger, closed_somewhen, close_in, views};
use crate::span::{Span, SpanView, opened_span, opt_text};

verus! {

pub struct TraceView {
    pub trace_id: Seq<char>,
    pub spans: Seq<SpanView>,
}

pub struct TraceContext {
    trace_id: String,
    ledger: SpanLedger,
}

impl View for TraceContext {
    type V = TraceView;

    closed spec fn view(&self) -> TraceView {
        TraceView { trace_id: self.trace_id@, spans: self.ledger@ }
    }
}

impl TraceContext {
    pub closed spec fn wf(&self) -> bool {
        self.ledger.wf()
    }

    /// A context for a fresh trace, with no spans.
    pub fn new() -> (r: TraceContext)
        ensures
            r.wf(),
            is_fresh_id_text(r@.trace_id),
            r@.spans == Seq::<SpanView>::empty(),
    {
        TraceContext { trace_id: new_id(), ledger: SpanLedger::new() }
    }

    /// A context that continues the trace `trace_id`, with no spans.
    pub fn with_trace_id(trace_id: String) -> (r: TraceContext)
        ensures
            r.wf(),
            r@.trace_id == trace_id@,
            r@.spans == Seq::<SpanView>::empty(),
    {
        TraceContext { trace_id, ledger: SpanLedger::new() }
    }

    pub fn trace_id(&self) -> (r: &str)
        ensures
            r@ == self@.trace_id,
    {
        self.trace_id.as_str()
    }

    pub fn ledger(&self) -> (r: &SpanLedger)
        ensures
            r@ == self@.spans,
    {
        &self.ledger
    }

    /// Opens a span with the given id, started at `start_ms`.
    pub fn start_span_at(
        &mut self,
        span_id: String,
        name: String,
        parent_id: Option<String>,
        start_ms: i64,
    ) -> (r: String)
        requires
            old(self).wf(),
        ensures
            final(self).wf(),
            final(self)@.trace_id == old(self)@.trace_id,
            final(self)@.spans == old(self)@.spans.push(
                opened_span(span_id@, opt_text(parent_id), name@, start_ms as int),
            ),
            r@ == span_id@,
    {
        self.ledger.open_at(span_id, name, parent_id, start_ms)
    }

    /// Opens a span with a fresh id, started now.
    pub fn start_span(&mut self, name: String, parent_id: Option<String>) -> (r: String)
        requires
            old(self).wf(),
        ensures
            final(self).wf(),
            is_fresh_id_text(r@),
            final(self)@.trace_id == old(self)@.trace_id,
            final(self)@.spans == old(self)@.spans.push(
                opened_span(r@, opt_text(parent_id), name@, final(self)@.spans.last().start),
            ),
    {
        self.ledger.open(name, parent_id)
    }

    /// Closes a span at the clock reading `now`; an unknown id or a span that
    /// is already closed changes nothing.
    pub fn end_span_at(&mut self, span_id: &str, now: i64)
        requires
            old(self).wf(),
        ensures
            final(self).wf(),
            final(self)@.trace_id == old(self)@.trace_id,
            final(self)@.spans == close_in(old(self)@.spans, span_id@, now as int),
    {
        self.ledger.close_at(span_id, now)
    }

    /// Closes a span now; an unknown id or a span that is already closed
    /// changes nothing.
    pub fn end_span(&mut self, span_id: &str)
        requires
            old(self).wf(),
        ensures
            final(self).wf(),
            final(self)@.trace_id == old(self)@.trace_id,
            closed_somewhen(old(self)@.spans, span_id@, final(self)@.spans),
    {
        self.ledger.close(span_id)
    }

    /// A point-in-time copy of all spans, in the order they were opened.
    pub fn snapshot(&self) -> (r: Vec<Span>)
        ensures
            views(r@) == self@.spans,
    {
        self.ledger.snapshot()
    }
}

} // verus!
