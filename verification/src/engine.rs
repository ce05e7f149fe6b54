//! The engine state owned by the overlay window: the current lyric
//! document, the latest estimated playback position, and the resolved
//! display state. Each poll tick feeds a position in; the returned
//! line-change event tells the caller to measure the next line and
//! schedule transitions.

use vstd::prelude::*;

use crate::document::LyricDocument;
use crate::resolver::DisplayState;
use crate::resolver::line_text_at;
use crate::resolver::resolved_next;
use crate::scheduler::DURATION_SCROLLING_MS;

verus! {

/// How far ahead of the current position the next line is looked up: the
/// scrolling duration, so the scroll lands exactly when the line starts.
pub const LOOKAHEAD_MS: u64 = DURATION_SCROLLING_MS;

pub struct LyricsEngine {
    pub document: Option<LyricDocument>,
    pub player_position_ms: Option<u64>,
    pub display: DisplayState,
}

impl LyricsEngine {
    /// The held document, if any, is well formed.
    pub open spec fn wf(&self) -> bool {
        self.document matches Some(d) ==> d.wf()
    }

    /// An engine with no document, no position and a blank display.
    pub fn new() -> (r: LyricsEngine)
        ensures
            r.wf(),
            r.document is None,
            r.player_position_ms is None,
            r.display.line_current is None,
            r.display.line_next is None,
            r.display.line_next_non_empty is None,
    {
        LyricsEngine {
            document: None,
            player_position_ms: None,
            display: DisplayState::new(),
        }
    }

    /// Swaps in a new lyric document (or none) and forgets the position
    /// until the next tick supplies one. Returns whether a line-change
    /// event fired; with no position both lines resolve to nothing, so the
    /// event fires exactly when a next line was showing.
    pub fn set_lyrics(&mut self, document: Option<LyricDocument>) -> (changed: bool)
        requires
            old(self).wf(),
            document matches Some(d) ==> d.wf(),
        ensures
            final(self).wf(),
            final(self).document == document,
            final(self).player_position_ms is None,
            final(self).display.line_current is None,
            final(self).display.line_next is None,
            final(self).display.line_next_non_empty == old(self).display.line_next_non_empty,
            changed == (old(self).display.line_next is Some),
    {
        self.document = document;
        self.set_player_position(None)
    }

    /// Feeds one tick's estimated position and re-resolves the lines.
    /// Returns whether a line-change event fired.
    pub fn set_player_position(&mut self, position_ms: Option<u64>) -> (changed: bool)
        requires
            old(self).wf(),
            position_ms matches Some(p) ==> p <= u64::MAX - LOOKAHEAD_MS,
        ensures
            final(self).wf(),
            final(self).document == old(self).document,
            final(self).player_position_ms == position_ms,
            changed == (final(self).display.line_next.deep_view()
                != old(self).display.line_next.deep_view()),
            old(self).document matches Some(d) ==> position_ms matches Some(p) ==> {
                let cur = line_text_at(d@, p);
                let next = resolved_next(d@, p, LOOKAHEAD_MS, cur);
                &&& final(self).display.line_current.deep_view() == cur
                &&& final(self).display.line_next.deep_view() == next
                &&& final(self).display.line_next_non_empty.deep_view() == (
                    if changed && (next matches Some(t) && t.len() > 0) {
                        next
                    } else {
                        old(self).display.line_next_non_empty.deep_view()
                    }
                )
            },
            !(old(self).document is Some && position_ms is Some) ==> {
                &&& final(self).display.line_current is None
                &&& final(self).display.line_next is None
                &&& final(self).display.line_next_non_empty
                    == old(self).display.line_next_non_empty
            },
    {
        self.player_position_ms = position_ms;
        self.display.resolve(self.document.as_ref(), position_ms, LOOKAHEAD_MS)
    }
}

} // verus!
