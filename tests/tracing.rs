use std::collections::HashSet;
use std::sync::{Arc, Mutex};
use std::time::Duration;

use request_tracing::codec::{parse_header, parse_traceparent, serialize};
use request_tracing::context::TraceContext;
use request_tracing::ledger::SpanLedger;
use request_tracing::lifecycle::{
    begin_request, begin_request_with, finish_request, finish_request_at, root_span_name, Phase,
    RequestBoundary,
};
use request_tracing::span::Span;

const HEADER: &str = "00-4bf92f3577b34da6a3ce929d0e0e4736-00f067aa0ba902b7-01";

fn is_fresh_id(s: &str) -> bool {
    s.len() == 32
        && s.chars().all(|c| c.is_ascii_digit() || ('a'..='f').contains(&c))
        && s.as_bytes()[12] == b'4'
}

#[test]
fn header_round_trip() {
    let r = parse_traceparent(HEADER);
    assert_eq!(
        r,
        Some((
            "4bf92f3577b34da6a3ce929d0e0e4736".to_string(),
            "00f067aa0ba902b7".to_string()
        ))
    );
}

#[test]
fn parse_header_keeps_flags() {
    let p = parse_header(HEADER).unwrap();
    assert_eq!(p.trace_id, "4bf92f3577b34da6a3ce929d0e0e4736");
    assert_eq!(p.parent_id, "00f067aa0ba902b7");
    assert_eq!(p.flags, "01");
}

#[test]
fn malformed_headers_give_no_context() {
    let bad = [
        "bogus",
        "",
        "00-short-00f067aa0ba902b7-01",
        "00-4bf92f3577b34da6a3ce929d0e0e4736-00f067aa0ba902b7",
        "00-4bf92f3577b34da6a3ce929d0e0e4736-00f067aa0ba902b7-01-extra",
        "00-00000000000000000000000000000000-00f067aa0ba902b7-01",
        "00-4bf92f3577b34da6a3ce929d0e0e4736-0000000000000000-01",
        "00-4bf92f3577b34da6a3ce929d0e0e473g-00f067aa0ba902b7-01",
        "00-4bf92f3577b34da6a3ce929d0e0e4736-00f067aa0ba902b7-1",
        "0-4bf92f3577b34da6a3ce929d0e0e4736-00f067aa0ba902b7-011",
        "00-4bf92f3577b34da6a3ce929d0e0e47é-00f067aa0ba902b7-01",
        "00_4bf92f3577b34da6a3ce929d0e0e4736-00f067aa0ba902b7-01",
    ];
    for h in bad {
        assert_eq!(parse_traceparent(h), None, "{h}");
        assert!(parse_header(h).is_none(), "{h}");
    }
}

#[test]
fn upper_case_hex_is_accepted() {
    let r = parse_traceparent("00-4BF92F3577B34DA6A3CE929D0E0E4736-00F067AA0BA902B7-01");
    assert_eq!(
        r,
        Some((
            "4BF92F3577B34DA6A3CE929D0E0E4736".to_string(),
            "00F067AA0BA902B7".to_string()
        ))
    );
}

#[test]
fn serialize_writes_version_zero() {
    let h = serialize("4bf92f3577b34da6a3ce929d0e0e4736", "00f067aa0ba902b7", "01");
    assert_eq!(h, HEADER);
    let p = parse_header(&h).unwrap();
    assert_eq!(p.trace_id, "4bf92f3577b34da6a3ce929d0e0e4736");
    assert_eq!(p.parent_id, "00f067aa0ba902b7");
    assert_eq!(p.flags, "01");
}

#[test]
fn malformed_header_starts_fresh_trace() {
    let (a, ra) = begin_request(Some("bogus"), "GET", Some("/users/1"));
    let (b, _) = begin_request(Some("00-short-00f067aa0ba902b7-01"), "GET", Some("/users/1"));
    assert!(is_fresh_id(a.trace_id()));
    assert!(is_fresh_id(b.trace_id()));
    assert_ne!(a.trace_id(), b.trace_id());
    let root = a.ledger().get(0);
    assert_eq!(root.span_id, ra);
    assert_eq!(root.parent_id, None);
}

#[test]
fn malformed_header_uses_given_fresh_id() {
    let (ctx, root) = begin_request_with(
        Some("bogus"),
        "POST",
        Some("/a?b=1"),
        "t1".to_string(),
        "r1".to_string(),
        500,
    );
    assert_eq!(ctx.trace_id(), "t1");
    assert_eq!(root, "r1");
    assert_eq!(ctx.ledger().len(), 1);
    let s = ctx.ledger().get(0);
    assert_eq!(s.parent_id, None);
    assert_eq!(s.name, "POST /a?b=1");
    assert_eq!(s.start_ms, 500);
    assert_eq!(s.end_ms, None);
    assert_eq!(s.duration_ms, None);
}

#[test]
fn end_to_end_with_inbound_context() {
    let (ctx, root) = begin_request(Some(HEADER), "GET", Some("/users/7"));
    assert_eq!(ctx.trace_id(), "4bf92f3577b34da6a3ce929d0e0e4736");
    assert_eq!(ctx.ledger().len(), 1);
    let s = ctx.ledger().get(0);
    assert_eq!(s.span_id, root);
    assert_eq!(s.parent_id, Some("00f067aa0ba902b7".to_string()));
    assert_eq!(s.name, "GET /users/7");
    assert!(is_fresh_id(&root));
}

#[test]
fn end_to_end_without_header() {
    let (ctx, root) = begin_request(None, "GET", None);
    assert!(is_fresh_id(ctx.trace_id()));
    let s = ctx.ledger().get(0);
    assert_eq!(s.span_id, root);
    assert_eq!(s.parent_id, None);
    assert_eq!(s.name, "GET /");
    assert!(s.start_ms > 1_600_000_000_000);
}

#[test]
fn root_name_defaults_to_slash() {
    assert_eq!(root_span_name("GET", None), "GET /");
    assert_eq!(root_span_name("DELETE", Some("/x?y")), "DELETE /x?y");
}

#[test]
fn close_idempotence() {
    let mut l = SpanLedger::new();
    let id = l.open_at("s1".to_string(), "work".to_string(), None, 1000);
    l.close_at(&id, 1080);
    assert_eq!(l.get(0).end_ms, Some(1080));
    assert_eq!(l.get(0).duration_ms, Some(80));
    l.close_at(&id, 5000);
    assert_eq!(l.get(0).end_ms, Some(1080));
    assert_eq!(l.get(0).duration_ms, Some(80));
}

#[test]
fn close_now_twice_keeps_first_end() {
    let mut ctx = TraceContext::new();
    let id = ctx.start_span("work".to_string(), None);
    ctx.end_span(&id);
    let first = ctx.snapshot();
    ctx.end_span(&id);
    let second = ctx.snapshot();
    assert!(first[0].end_ms.is_some());
    assert_eq!(first[0].end_ms, second[0].end_ms);
    assert_eq!(first[0].duration_ms, second[0].duration_ms);
}

fn same(a: &Span, b: &Span) -> bool {
    a.span_id == b.span_id
        && a.parent_id == b.parent_id
        && a.name == b.name
        && a.start_ms == b.start_ms
        && a.end_ms == b.end_ms
        && a.duration_ms == b.duration_ms
}

#[test]
fn close_on_unknown_id() {
    let mut l = SpanLedger::new();
    l.open_at("a".to_string(), "one".to_string(), None, 10);
    l.open_at("b".to_string(), "two".to_string(), Some("a".to_string()), 20);
    l.close_at("a", 30);
    let before = l.snapshot();
    l.close_at("nonexistent", 40);
    l.close("nonexistent");
    let after = l.snapshot();
    assert_eq!(before.len(), 2);
    assert_eq!(after.len(), 2);
    for i in 0..2 {
        assert!(same(&before[i], &after[i]));
    }
}

#[test]
fn close_before_start_records_zero() {
    let mut l = SpanLedger::new();
    l.open_at("a".to_string(), "one".to_string(), None, 100);
    l.close_at("a", 90);
    assert_eq!(l.get(0).end_ms, Some(100));
    assert_eq!(l.get(0).duration_ms, Some(0));
}

#[test]
fn close_picks_last_span_with_id() {
    let mut l = SpanLedger::new();
    l.open_at("dup".to_string(), "first".to_string(), None, 0);
    l.open_at("dup".to_string(), "second".to_string(), None, 5);
    l.close_at("dup", 12);
    assert_eq!(l.get(0).end_ms, None);
    assert_eq!(l.get(1).duration_ms, Some(7));
}

#[test]
fn extreme_clock_readings() {
    let mut l = SpanLedger::new();
    l.open_at("a".to_string(), "one".to_string(), None, i64::MIN);
    l.close_at("a", i64::MAX);
    assert_eq!(l.get(0).duration_ms, Some(u64::MAX));
}

#[test]
fn uniqueness_under_concurrency() {
    let rt = tokio::runtime::Runtime::new().unwrap();
    let ctx = Arc::new(Mutex::new(TraceContext::new()));
    let ids: Vec<String> = rt.block_on(async {
        let mut tasks = Vec::new();
        for i in 0..1000 {
            let ctx = ctx.clone();
            tasks.push(tokio::spawn(async move {
                ctx.lock().unwrap().start_span(format!("op {i}"), None)
            }));
        }
        let mut ids = Vec::new();
        for t in tasks {
            ids.push(t.await.unwrap());
        }
        ids
    });
    let distinct: HashSet<&String> = ids.iter().collect();
    assert_eq!(distinct.len(), 1000);
    assert_eq!(ctx.lock().unwrap().ledger().len(), 1000);
    assert!(ids.iter().all(|id| is_fresh_id(id)));
}

#[test]
fn duration_accuracy() {
    let rt = tokio::runtime::Runtime::new().unwrap();
    let (mut ctx, root) = begin_request(None, "GET", Some("/users/1"));
    let child = ctx.start_span("Users route hit".to_string(), Some(root.clone()));
    rt.block_on(async { tokio::time::sleep(Duration::from_millis(80)).await });
    ctx.end_span(&child);
    let spans = finish_request(&mut ctx, &root);
    assert_eq!(spans.len(), 2);
    assert_eq!(spans[1].span_id, child);
    assert_eq!(spans[1].parent_id, Some(root.clone()));
    let d = spans[1].duration_ms.unwrap();
    assert!((70..=110).contains(&d), "{d}");
    assert!(spans[0].duration_ms.is_some());
}

#[test]
fn finish_emits_incomplete_spans() {
    let (mut ctx, root) =
        begin_request_with(Some(HEADER), "GET", Some("/"), "x".to_string(), "root".to_string(), 0);
    ctx.start_span_at("c1".to_string(), "child".to_string(), Some("root".to_string()), 5);
    let spans = finish_request_at(&mut ctx, &root, 25);
    assert_eq!(spans.len(), 2);
    assert_eq!(spans[0].span_id, "root");
    assert_eq!(spans[0].duration_ms, Some(25));
    assert_eq!(spans[1].span_id, "c1");
    assert_eq!(spans[1].end_ms, None);
    assert_eq!(spans[1].duration_ms, None);
    assert_eq!(ctx.trace_id(), "4bf92f3577b34da6a3ce929d0e0e4736");
}

#[test]
fn fresh_ids_are_lower_hex() {
    let a = TraceContext::new();
    let b = TraceContext::with_trace_id("abc".to_string());
    assert!(is_fresh_id(a.trace_id()));
    assert_eq!(b.trace_id(), "abc");
    assert_eq!(b.ledger().len(), 0);
}

#[test]
fn boundary_emits_exactly_once() {
    let (mut ctx, mut req) = RequestBoundary::begin(Some(HEADER), "GET", Some("/users/1"));
    assert!(req.phase == Phase::RootOpen);
    req.start_handler();
    assert!(req.phase == Phase::HandlerRunning);
    req.start_handler();
    assert!(req.phase == Phase::HandlerRunning);
    let child = ctx.start_span("DB query execution".to_string(), Some(req.root_span_id.clone()));
    let first = req.finish_at(&mut ctx, i64::MAX).unwrap();
    assert!(req.phase == Phase::Emitted);
    assert_eq!(first.len(), 2);
    assert_eq!(first[0].span_id, req.root_span_id);
    assert_eq!(first[0].end_ms, Some(i64::MAX));
    assert_eq!(first[0].parent_id, Some("00f067aa0ba902b7".to_string()));
    assert_eq!(first[1].span_id, child);
    assert_eq!(first[1].duration_ms, None);
    assert!(req.finish(&mut ctx).is_none());
    req.start_handler();
    assert!(req.phase == Phase::Emitted);
    assert_eq!(ctx.snapshot()[0].end_ms, Some(i64::MAX));
}

#[test]
fn boundary_finishes_without_handler() {
    let (mut ctx, mut req) = RequestBoundary::begin(None, "GET", None);
    let spans = req.finish(&mut ctx).unwrap();
    assert_eq!(spans.len(), 1);
    assert_eq!(spans[0].parent_id, None);
    assert!(spans[0].duration_ms.is_some());
    assert!(req.phase == Phase::Emitted);
}
