//! The line resolver: maps the estimated playback position onto the lyric
//! document, computes the look-ahead next line with a hysteresis rule for
//! empty lines, and reports a line-change event exactly when the resolved
//! next line differs from the previous resolution.

use vstd::prelude::*;

use crate::document::LyricDocument;
use crate::document::spec_find_line_index;

verus! {

/// The text of the line active at `position_ms`, or `None` when the
/// position precedes the whole document.
pub open spec fn line_text_at(doc: Seq<(u64, Seq<char>)>, position_ms: u64) -> Option<Seq<char>> {
    match spec_find_line_index(doc, position_ms) {
        None => None,
        Some(i) => Some(doc[i].1),
    }
}

/// The next line the resolver settles on: the line one look-ahead interval
/// ahead, unless that line is empty or absent, in which case the current
/// line is substituted so the transition is deferred until the blank period
/// itself becomes current.
pub open spec fn resolved_next(
    doc: Seq<(u64, Seq<char>)>,
    position_ms: u64,
    lookahead_ms: u64,
    current: Option<Seq<char>>,
) -> Option<Seq<char>>
    recommends
        position_ms + lookahead_ms <= u64::MAX,
{
    let raw_next = line_text_at(doc, (position_ms + lookahead_ms) as u64);
    if raw_next matches Some(t) && t.len() > 0 {
        raw_next
    } else {
        current
    }
}

/// Law (hysteresis): whenever the look-ahead line is absent or empty, the
/// resolver substitutes the current line for it.
pub proof fn lemma_hysteresis(
    doc: Seq<(u64, Seq<char>)>,
    position_ms: u64,
    lookahead_ms: u64,
    current: Option<Seq<char>>,
)
    requires
        position_ms + lookahead_ms <= u64::MAX,
        ({
            let raw_next = line_text_at(doc, (position_ms + lookahead_ms) as u64);
            raw_next is None || (raw_next matches Some(t) && t.len() == 0)
        }),
    ensures
        resolved_next(doc, position_ms, lookahead_ms, current) == current,
{
}

/// The text shown on the two visual layers. `line_next_non_empty` retains
/// the last next line that was not blank, so a fade-out still has
/// something to render while opacity falls.
pub struct DisplayState {
    pub line_current: Option<String>,
    pub line_next: Option<String>,
    pub line_next_non_empty: Option<String>,
}

fn clone_line(o: &Option<String>) -> (r: Option<String>)
    ensures
        r.deep_view() == o.deep_view(),
{
    match o {
        None => None,
        Some(s) => Some(s.clone()),
    }
}

fn line_eq(a: &Option<String>, b: &Option<String>) -> (r: bool)
    ensures
        r == (a.deep_view() == b.deep_view()),
{
    match (a, b) {
        (None, None) => true,
        (Some(x), Some(y)) => {
            let r = *x == *y;
            assert(a.deep_view() == Some(x@) && b.deep_view() == Some(y@));
            r
        },
        _ => {
            assert(a.deep_view() is Some <==> a is Some);
            assert(b.deep_view() is Some <==> b is Some);
            false
        },
    }
}

impl DisplayState {
    /// A blank display: nothing resolved yet.
    pub fn new() -> (r: DisplayState)
        ensures
            r.line_current is None,
            r.line_next is None,
            r.line_next_non_empty is None,
    {
        DisplayState { line_current: None, line_next: None, line_next_non_empty: None }
    }

    /// One resolver call: recomputes the current and next lines for the
    /// given document and position, and returns whether a line-change event
    /// fired. The event fires exactly when the resolved next line differs
    /// from the previous one; it is the sole trigger for scheduling
    /// transitions.
    pub fn resolve(
        &mut self,
        document: Option<&LyricDocument>,
        position_ms: Option<u64>,
        lookahead_ms: u64,
    ) -> (changed: bool)
        requires
            document matches Some(d) ==> d.wf(),
            position_ms matches Some(p) ==> p + lookahead_ms <= u64::MAX,
        ensures
            changed == (final(self).line_next.deep_view() != old(self).line_next.deep_view()),
            document matches Some(d) ==> position_ms matches Some(p) ==> {
                let cur = line_text_at(d@, p);
                let next = resolved_next(d@, p, lookahead_ms, cur);
                &&& final(self).line_current.deep_view() == cur
                &&& final(self).line_next.deep_view() == next
                &&& final(self).line_next_non_empty.deep_view() == (
                    if changed && (next matches Some(t) && t.len() > 0) {
                        next
                    } else {
                        old(self).line_next_non_empty.deep_view()
                    }
                )
            },
            !(document is Some && position_ms is Some) ==> {
                &&& final(self).line_current is None
                &&& final(self).line_next is None
                &&& final(self).line_next_non_empty == old(self).line_next_non_empty
                &&& changed == (old(self).line_next is Some)
            },
    {
        match (document, position_ms) {
            (Some(doc), Some(pos)) => {
                let cur: Option<String> = match doc.find_line_index(pos) {
                    None => None,
                    Some(i) => Some(doc.line_text(i).clone()),
                };
                assert(cur.deep_view() == line_text_at(doc@, pos));
                self.line_current = cur;
                let raw_next: Option<String> = match doc.find_line_index(pos + lookahead_ms) {
                    None => None,
                    Some(i) => Some(doc.line_text(i).clone()),
                };
                assert(raw_next.deep_view() == line_text_at(doc@, (pos + lookahead_ms) as u64));
                let next: Option<String> = match raw_next {
                    Some(t) => {
                        if !t.as_str().is_empty() {
                            Some(t)
                        } else {
                            clone_line(&self.line_current)
                        }
                    },
                    None => clone_line(&self.line_current),
                };
                let changed = !line_eq(&next, &self.line_next);
                if changed {
                    let next_is_shown = match &next {
                        Some(t) => !t.as_str().is_empty(),
                        None => false,
                    };
                    self.line_next = next;
                    if next_is_shown {
                        self.line_next_non_empty = clone_line(&self.line_next);
                    }
                }
                changed
            },
            _ => {
                self.line_current = None;
                if self.line_next.is_some() {
                    self.line_next = None;
                    true
                } else {
                    false
                }
            },
        }
    }
}

} // verus!
