//! The boundary of one request: the trace is continued from the inbound
//! header or started afresh, a root span is opened for the request, and once
//! the handler is done the root span is closed and the spans are handed on.

use vstd::prelude::*;
use crate::codec::{
    all_zero, header_fields, header_text, is_hex_field, is_valid_header, lemma_round_trip,
    parse_header,
};
use crate::context::{TraceContext, TraceView};
use crate::ids::{is_fresh_id_text, new_id, now_millis};
use crate::ledger::{close_in, closed_somewhen, views};
use crate::span::{Span, opened_span};

verus! {

pub open spec fn opt_str_text(o: Option<&str>) -> Option<Seq<char>> {
    match o {
        Some(s) => Some(s@),
        None => None,
    }
}

/// What an inbound header, if any, continues: (trace id, parent span id,
/// flags), or nothing when it is absent or malformed.
pub open spec fn inbound(header: Option<Seq<char>>) -> Option<(Seq<char>, Seq<char>, Seq<char>)> {
    match header {
        Some(h) => header_fields(h),
        None => None,
    }
}

/// The root span's name: the method, a space, and the path with its query
/// (`/` when there is none).
pub open spec fn root_name_text(method: Seq<char>, path_and_query: Option<Seq<char>>) -> Seq<char> {
    method + seq![' '] + match path_and_query {
        Some(p) => p,
        None => seq!['/'],
    }
}

/// The trace at the start of a request: the inbound trace id, or `fresh_trace_id`
/// where there is no valid header, and one root span whose parent is the
/// inbound parent span, if any.
pub open spec fn begun(
    header: Option<Seq<char>>,
    method: Seq<char>,
    path_and_query: Option<Seq<char>>,
    fresh_trace_id: Seq<char>,
    root_span_id: Seq<char>,
    now: int,
) -> TraceView {
    let name = root_name_text(method, path_and_query);
    match inbound(header) {
        Some(f) => TraceView {
            trace_id: f.0,
            spans: seq![opened_span(root_span_id, Some(f.1), name, now)],
        },
        None => TraceView {
            trace_id: fresh_trace_id,
            spans: seq![opened_span(root_span_id, None, name, now)],
        },
    }
}

/// A malformed header is treated as no header: the trace id is the freshly
/// minted one and the root span has no parent.
pub proof fn lemma_malformed_header_fallback(
    header: Seq<char>,
    method: Seq<char>,
    path_and_query: Option<Seq<char>>,
    fresh_trace_id: Seq<char>,
    root_span_id: Seq<char>,
    now: int,
)
    requires
        !is_valid_header(header),
    ensures
        begun(Some(header), method, path_and_query, fresh_trace_id, root_span_id, now)
            == begun(None, method, path_and_query, fresh_trace_id, root_span_id, now),
        begun(Some(header), method, path_and_query, fresh_trace_id, root_span_id, now).trace_id
            == fresh_trace_id,
        begun(Some(header), method, path_and_query, fresh_trace_id, root_span_id, now).spans[0].parent_id
            is None,
{
}

/// A valid header continues its trace: the context takes the header's trace
/// id, and the root span's parent is the header's parent span id.
pub proof fn lemma_inbound_context(
    header: Seq<char>,
    method: Seq<char>,
    path_and_query: Option<Seq<char>>,
    fresh_trace_id: Seq<char>,
    root_span_id: Seq<char>,
    now: int,
)
    requires
        is_valid_header(header),
    ensures
        begun(Some(header), method, path_and_query, fresh_trace_id, root_span_id, now).trace_id
            == header.subrange(3, 35),
        begun(Some(header), method, path_and_query, fresh_trace_id, root_span_id, now).spans.len()
            == 1,
        begun(Some(header), method, path_and_query, fresh_trace_id, root_span_id, now).spans[0].parent_id
            == Some(header.subrange(36, 52)),
{
}

/// A header written for a trace and a span continues that trace in the next
/// process: its trace id is kept and its root span's parent is that span.
pub proof fn lemma_propagation_continues(
    trace_id: Seq<char>,
    span_id: Seq<char>,
    flags: Seq<char>,
    method: Seq<char>,
    path_and_query: Option<Seq<char>>,
    fresh_trace_id: Seq<char>,
    root_span_id: Seq<char>,
    now: int,
)
    requires
        is_hex_field(trace_id, 32),
        !all_zero(trace_id),
        is_hex_field(span_id, 16),
        !all_zero(span_id),
        is_hex_field(flags, 2),
    ensures
        ({
            let b = begun(
                Some(header_text(trace_id, span_id, flags)),
                method,
                path_and_query,
                fresh_trace_id,
                root_span_id,
                now,
            );
            b.trace_id == trace_id && b.spans[0].parent_id == Some(span_id)
        }),
{
    lemma_round_trip(trace_id, span_id, flags);
}

pub fn root_span_name(method: &str, path_and_query: Option<&str>) -> (r: String)
    ensures
        r@ == root_name_text(method@, opt_str_text(path_and_query)),
{
    let mut name = String::from_str(method);
    name.append(" ");
    match path_and_query {
        Some(p) => name.append(p),
        None => name.append("/"),
    }
    proof {
        reveal_strlit(" ");
        reveal_strlit("/");
    }
    name
}

/// Starts the trace of a request with the given fresh trace id, root span id
/// and clock reading; returns the context and the root span's id.
pub fn begin_request_with(
    header: Option<&str>,
    method: &str,
    path_and_query: Option<&str>,
    fresh_trace_id: String,
    root_span_id: String,
    now: i64,
) -> (r: (TraceContext, String))
    ensures
        r.0.wf(),
        r.0@ == begun(
            opt_str_text(header),
            method@,
            opt_str_text(path_and_query),
            fresh_trace_id@,
            root_span_id@,
            now as int,
        ),
        r.1@ == root_span_id@,
{
    let parsed = match header {
        Some(h) => parse_header(h),
        None => None,
    };
    let name = root_span_name(method, path_and_query);
    let (mut ctx, parent) = match parsed {
        Some(p) => (TraceContext::with_trace_id(p.trace_id), Some(p.parent_id)),
        None => (TraceContext::with_trace_id(fresh_trace_id), None),
    };
    let root = ctx.start_span_at(root_span_id, name, parent, now);
    proof {
        let b = begun(
            opt_str_text(header),
            method@,
            opt_str_text(path_and_query),
            fresh_trace_id@,
            root_span_id@,
            now as int,
        );
        assert(ctx@.spans =~= b.spans);
    }
    (ctx, root)
}

/// Starts the trace of a request now: the inbound trace is continued where
/// the header is valid, a fresh trace is started otherwise, and the root span
/// is opened with a fresh id.
pub fn begin_request(header: Option<&str>, method: &str, path_and_query: Option<&str>) -> (r: (
    TraceContext,
    String,
))
    ensures
        r.0.wf(),
        is_fresh_id_text(r.1@),
        exists|fresh: Seq<char>, now: int|
            is_fresh_id_text(fresh) && r.0@ == #[trigger] begun(
                opt_str_text(header),
                method@,
                opt_str_text(path_and_query),
                fresh,
                r.1@,
                now,
            ),
{
    let fresh = new_id();
    let root = new_id();
    let now = now_millis();
    begin_request_with(header, method, path_and_query, fresh, root, now)
}

/// Ends the trace of a request at the clock reading `now`: the root span is
/// closed and a copy of every span, in order, is returned for the sink.
pub fn finish_request_at(ctx: &mut TraceContext, root_span_id: &str, now: i64) -> (r: Vec<Span>)
    requires
        old(ctx).wf(),
    ensures
        final(ctx).wf(),
        final(ctx)@.trace_id == old(ctx)@.trace_id,
        final(ctx)@.spans == close_in(old(ctx)@.spans, root_span_id@, now as int),
        views(r@) == final(ctx)@.spans,
{
    ctx.end_span_at(root_span_id, now);
    ctx.snapshot()
}

/// Ends the trace of a request now: the root span is closed and a copy of
/// every span, in order, is returned for the sink.
pub fn finish_request(ctx: &mut TraceContext, root_span_id: &str) -> (r: Vec<Span>)
    requires
        old(ctx).wf(),
    ensures
        final(ctx).wf(),
        final(ctx)@.trace_id == old(ctx)@.trace_id,
        closed_somewhen(old(ctx)@.spans, root_span_id@, final(ctx)@.spans),
        views(r@) == final(ctx)@.spans,
{
    let now = now_millis();
    finish_request_at(ctx, root_span_id, now)
}

/// Where a request stands. The root span is closed and the trace handed on in
/// one step, so the request goes from `HandlerRunning` (or `RootOpen`, where
/// the handler never started) straight to `Emitted`.
#[derive(PartialEq, Eq, Structural)]
pub enum Phase {
    RootOpen,
    HandlerRunning,
    Emitted,
}

/// The boundary of one request: the root span it opened and its phase.
pub struct RequestBoundary {
    pub root_span_id: String,
    pub phase: Phase,
}

impl RequestBoundary {
    /// Starts the trace of a request (see `begin_request`): the root span is
    /// open and the handler has not started.
    pub fn begin(header: Option<&str>, method: &str, path_and_query: Option<&str>) -> (r: (
        TraceContext,
        RequestBoundary,
    ))
        ensures
            r.0.wf(),
            r.1.phase == Phase::RootOpen,
            is_fresh_id_text(r.1.root_span_id@),
            exists|fresh: Seq<char>, now: int|
                is_fresh_id_text(fresh) && r.0@ == #[trigger] begun(
                    opt_str_text(header),
                    method@,
                    opt_str_text(path_and_query),
                    fresh,
                    r.1.root_span_id@,
                    now,
                ),
    {
        let (ctx, root_span_id) = begin_request(header, method, path_and_query);
        (ctx, RequestBoundary { root_span_id, phase: Phase::RootOpen })
    }

    /// The handler is about to run; only a request whose root span is open
    /// moves on.
    pub fn start_handler(&mut self)
        ensures
            final(self).root_span_id == old(self).root_span_id,
            final(self).phase == (if old(self).phase == Phase::RootOpen {
                Phase::HandlerRunning
            } else {
                old(self).phase
            }),
    {
        if self.phase == Phase::RootOpen {
            self.phase = Phase::HandlerRunning;
        }
    }

    /// Closes the root span at the clock reading `now` and returns the spans
    /// for the sink, the first time only; once emitted, a request emits
    /// nothing more and its context is left alone.
    pub fn finish_at(&mut self, ctx: &mut TraceContext, now: i64) -> (r: Option<Vec<Span>>)
        requires
            old(ctx).wf(),
        ensures
            final(ctx).wf(),
            final(self).phase == Phase::Emitted,
            final(self).root_span_id == old(self).root_span_id,
            old(self).phase == Phase::Emitted ==> r is None && final(ctx)@ == old(ctx)@,
            old(self).phase != Phase::Emitted ==> {
                &&& final(ctx)@.trace_id == old(ctx)@.trace_id
                &&& final(ctx)@.spans == close_in(
                    old(ctx)@.spans,
                    old(self).root_span_id@,
                    now as int,
                )
                &&& r matches Some(v) && views(v@) == final(ctx)@.spans
            },
    {
        if self.phase == Phase::Emitted {
            return None;
        }
        self.phase = Phase::Emitted;
        Some(finish_request_at(ctx, self.root_span_id.as_str(), now))
    }

    /// Closes the root span now and returns the spans for the sink, the first
    /// time only.
    pub fn finish(&mut self, ctx: &mut TraceContext) -> (r: Option<Vec<Span>>)
        requires
            old(ctx).wf(),
        ensures
            final(ctx).wf(),
            final(self).phase == Phase::Emitted,
            final(self).root_span_id == old(self).root_span_id,
            old(self).phase == Phase::Emitted ==> r is None && final(ctx)@ == old(ctx)@,
            old(self).phase != Phase::Emitted ==> {
                &&& final(ctx)@.trace_id == old(ctx)@.trace_id
                &&& closed_somewhen(old(ctx)@.spans, old(self).root_span_id@, final(ctx)@.spans)
                &&& r matches Some(v) && views(v@) == final(ctx)@.spans
            },
    {
        let now = now_millis();
        self.finish_at(ctx, now)
    }
}

} // verus!
