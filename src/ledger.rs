//! The spans of one trace, in the order in which they were opened.

use vstd::prelude::*;
use crate::ids::{is_fresh_id_text, new_id, now_millis};
use crate::span::{Span, SpanView, opened_span, closed_span, opt_text};

verus! {

pub open spec fn views(v: Seq<Span>) -> Seq<SpanView> {
    v.map_values(|s: Span| s@)
}

pub open spec fn all_wf(s: Seq<SpanView>) -> bool {
    forall|i: int| 0 <= i < s.len() ==> (#[trigger] s[i]).wf()
}

/// `i` is the last position that holds a span with this id.
pub open spec fn is_last_with_id(s: Seq<SpanView>, id: Seq<char>, i: int) -> bool {
    &&& 0 <= i < s.len()
    &&& s[i].span_id == id
    &&& forall|j: int| i < j < s.len() ==> (#[trigger] s[j]).span_id != id
}

pub open spec fn has_id(s: Seq<SpanView>, id: Seq<char>) -> bool {
    exists|i: int| 0 <= i < s.len() && (#[trigger] s[i]).span_id == id
}

/// The spans after closing `id` at the clock reading `now`: the last span
/// with that id is closed if it is still open; an unknown id or a span that
/// is already closed leaves everything as it was.
pub open spec fn close_in(s: Seq<SpanView>, id: Seq<char>, now: int) -> Seq<SpanView> {
    if exists|i: int| is_last_with_id(s, id, i) {
        let i = choose|i: int| is_last_with_id(s, id, i);
        if s[i].is_closed() {
            s
        } else {
            s.update(i, closed_span(s[i], now))
        }
    } else {
        s
    }
}

/// `after` is `before` with `id` closed at some clock reading.
pub open spec fn closed_somewhen(before: Seq<SpanView>, id: Seq<char>, after: Seq<SpanView>) -> bool {
    exists|t: int| after == #[trigger] close_in(before, id, t)
}

proof fn lemma_last_unique(s: Seq<SpanView>, id: Seq<char>, i: int)
    requires
        is_last_with_id(s, id, i),
    ensures
        (choose|k: int| is_last_with_id(s, id, k)) == i,
{
    let k = choose|k: int| is_last_with_id(s, id, k);
    if k < i {
        assert(s[i].span_id != id);
    } else if k > i {
        assert(s[k].span_id != id);
    }
}

/// Closing a span a second time changes nothing: its end and duration are
/// the ones the first close recorded.
pub proof fn lemma_close_idempotent(s: Seq<SpanView>, id: Seq<char>, t1: int, t2: int)
    ensures
        close_in(close_in(s, id, t1), id, t2) == close_in(s, id, t1),
{
    if exists|i: int| is_last_with_id(s, id, i) {
        let i = choose|i: int| is_last_with_id(s, id, i);
        if !s[i].is_closed() {
            let s1 = s.update(i, closed_span(s[i], t1));
            assert forall|j: int| i < j < s1.len() implies (#[trigger] s1[j]).span_id != id by {
                assert(s[j].span_id != id);
            }
            assert(is_last_with_id(s1, id, i));
            lemma_last_unique(s1, id, i);
        }
    }
}

/// Closing an id that no span has leaves the spans as they were.
pub proof fn lemma_close_unknown(s: Seq<SpanView>, id: Seq<char>, t: int)
    requires
        !has_id(s, id),
    ensures
        close_in(s, id, t) == s,
{
    if exists|i: int| is_last_with_id(s, id, i) {
        let i = choose|i: int| is_last_with_id(s, id, i);
        assert(s[i].span_id == id);
    }
}

/// Closing an open span at a clock reading no earlier than its start records
/// exactly the time elapsed since the start, and touches no other span.
pub proof fn lemma_close_duration(s: Seq<SpanView>, id: Seq<char>, i: int, now: int)
    requires
        is_last_with_id(s, id, i),
        !s[i].is_closed(),
        now >= s[i].start,
    ensures
        close_in(s, id, now).len() == s.len(),
        close_in(s, id, now)[i].end == Some(now),
        close_in(s, id, now)[i].duration == Some(now - s[i].start),
        forall|j: int| 0 <= j < s.len() && j != i ==> #[trigger] close_in(s, id, now)[j] == s[j],
{
    lemma_last_unique(s, id, i);
}

/// The spans of one trace. Spans are only appended, and a span only changes
/// when it is closed.
pub struct SpanLedger {
    spans: Vec<Span>,
}

impl View for SpanLedger {
    type V = Seq<SpanView>;

    closed spec fn view(&self) -> Seq<SpanView> {
        views(self.spans@)
    }
}

impl SpanLedger {
    pub open spec fn wf(&self) -> bool {
        all_wf(self@)
    }

    pub fn new() -> (r: SpanLedger)
        ensures
            r@ == Seq::<SpanView>::empty(),
            r.wf(),
    {
        let r = SpanLedger { spans: Vec::new() };
        assert(r@ =~= Seq::<SpanView>::empty());
        r
    }

    pub fn len(&self) -> (r: usize)
        ensures
            r == self@.len(),
    {
        self.spans.len()
    }

    pub fn get(&self, i: usize) -> (r: &Span)
        requires
            i < self@.len(),
        ensures
            r@ == self@[i as int],
    {
        &self.spans[i]
    }

    /// Appends a span opened at `start_ms` and returns its id.
    pub fn open_at(
        &mut self,
        span_id: String,
        name: String,
        parent_id: Option<String>,
        start_ms: i64,
    ) -> (r: String)
        requires
            old(self).wf(),
        ensures
            final(self).wf(),
            final(self)@ == old(self)@.push(
                opened_span(span_id@, opt_text(parent_id), name@, start_ms as int),
            ),
            r@ == span_id@,
    {
        let r = span_id.clone();
        let s = Span::new(span_id, parent_id, name, start_ms);
        self.spans.push(s);
        assert(self@ =~= old(self)@.push(s@));
        r
    }

    /// Appends a span with a fresh id, started now, and returns its id.
    pub fn open(&mut self, name: String, parent_id: Option<String>) -> (r: String)
        requires
            old(self).wf(),
        ensures
            final(self).wf(),
            is_fresh_id_text(r@),
            final(self)@ == old(self)@.push(
                opened_span(r@, opt_text(parent_id), name@, final(self)@.last().start),
            ),
    {
        let id = new_id();
        let now = now_millis();
        self.open_at(id, name, parent_id, now)
    }

    /// The position of the last span with this id.
    fn find_last(&self, id: &String) -> (r: Option<usize>)
        ensures
            r matches Some(i) ==> is_last_with_id(self@, id@, i as int),
            r is None ==> !has_id(self@, id@),
    {
        let mut i: usize = self.spans.len();
        while i > 0
            invariant
                i <= self@.len(),
                self@.len() == self.spans@.len(),
                forall|j: int| i <= j < self@.len() ==> (#[trigger] self@[j]).span_id != id@,
            decreases i,
        {
            if self.spans[i - 1].span_id == *id {
                return Some(i - 1);
            }
            i = i - 1;
        }
        None
    }

    /// Closes the last span with this id at the clock reading `now`, if it is
    /// still open; otherwise nothing changes.
    pub fn close_at(&mut self, span_id: &str, now: i64)
        requires
            old(self).wf(),
        ensures
            final(self).wf(),
            final(self)@ == close_in(old(self)@, span_id@, now as int),
    {
        let id = span_id.to_owned();
        match self.find_last(&id) {
            None => {
                assert(!exists|i: int| is_last_with_id(self@, id@, i)) by {
                    if exists|i: int| is_last_with_id(self@, id@, i) {
                        let i = choose|i: int| is_last_with_id(self@, id@, i);
                        assert(self@[i].span_id == id@);
                    }
                }
            },
            Some(i) => {
                proof {
                    lemma_last_unique(self@, id@, i as int);
                }
                if !self.spans[i].is_closed() {
                    self.spans[i].close_at(now);
                    proof {
                        crate::span::lemma_closed_span_wf(old(self)@[i as int], now as int);
                        assert(self@ =~= old(self)@.update(
                            i as int,
                            closed_span(old(self)@[i as int], now as int),
                        ));
                    }
                }
            },
        }
    }

    /// Closes the last span with this id now, if it is still open; otherwise
    /// nothing changes.
    pub fn close(&mut self, span_id: &str)
        requires
            old(self).wf(),
        ensures
            final(self).wf(),
            closed_somewhen(old(self)@, span_id@, final(self)@),
    {
        let now = now_millis();
        self.close_at(span_id, now);
    }

    /// A point-in-time copy of all spans, in order.
    pub fn snapshot(&self) -> (r: Vec<Span>)
        ensures
            views(r@) == self@,
    {
        let mut out: Vec<Span> = Vec::new();
        let mut i: usize = 0;
        while i < self.spans.len()
            invariant
                i <= self.spans@.len(),
                out@.len() == i,
                forall|j: int| 0 <= j < i ==> (#[trigger] out@[j])@ == self.spans@[j]@,
            decreases self.spans@.len() - i,
        {
            out.push(self.spans[i].copy());
            i = i + 1;
        }
        assert(views(out@) =~= self@);
        out
    }
}

} // verus!
