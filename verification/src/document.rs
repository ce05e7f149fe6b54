//! The timed lyric document: an ordered list of timestamped lines with a
//! position lookup. A document is immutable after construction; when the
//! track changes it is replaced wholesale, never edited.

use vstd::prelude::*;

verus! {

/// One lyric line: the text shown from `timestamp_ms` onwards.
pub struct TimedLine {
    pub timestamp_ms: u64,
    pub text: String,
}

impl View for TimedLine {
    type V = (u64, Seq<char>);

    open spec fn view(&self) -> (u64, Seq<char>) {
        (self.timestamp_ms, self.text@)
    }
}

impl DeepView for TimedLine {
    type V = (u64, Seq<char>);

    open spec fn deep_view(&self) -> (u64, Seq<char>) {
        self.view()
    }
}

/// Why a raw lyric source was rejected during document construction.
#[derive(Debug, Clone, Copy, PartialEq, Eq, Structural)]
pub enum ParseError {
    /// The text is not well-formed LRC data.
    UnparsableSource,
    /// The parsed lines have inconsistent (decreasing or negative) timestamps.
    MalformedTimestamps,
}

/// The timestamps of `s` never decrease.
pub open spec fn timestamps_sorted(s: Seq<(u64, Seq<char>)>) -> bool {
    forall|i: int, j: int| 0 <= i <= j < s.len() ==> s[i].0 <= s[j].0
}

/// Index of the last line of `s` whose timestamp is at or before
/// `position_ms`, or `None` when the position precedes the whole sequence.
pub open spec fn spec_find_line_index(s: Seq<(u64, Seq<char>)>, position_ms: u64) -> Option<int>
    decreases s.len(),
{
    if s.len() == 0 {
        None
    } else if s.last().0 <= position_ms {
        Some(s.len() - 1)
    } else {
        spec_find_line_index(s.drop_last(), position_ms)
    }
}

/// On a sorted sequence the found index is exactly the last line at or
/// before the position, and `None` exactly when the position precedes the
/// first line.
pub proof fn lemma_spec_find_line_index(s: Seq<(u64, Seq<char>)>, position_ms: u64)
    requires
        timestamps_sorted(s),
    ensures
        match spec_find_line_index(s, position_ms) {
            None => s.len() == 0 || position_ms < s[0].0,
            Some(i) => 0 <= i < s.len() && s[i].0 <= position_ms
                && forall|j: int| i < j < s.len() ==> s[j].0 > position_ms,
        },
    decreases s.len(),
{
    if s.len() > 0 && s.last().0 > position_ms {
        assert(forall|i: int, j: int|
            0 <= i <= j < s.drop_last().len() ==> s.drop_last()[i].0 <= s.drop_last()[j].0);
        lemma_spec_find_line_index(s.drop_last(), position_ms);
        match spec_find_line_index(s.drop_last(), position_ms) {
            None => {
                if s.len() > 1 {
                    assert(s.drop_last()[0] == s[0]);
                }
            },
            Some(i) => {
                assert(s.drop_last()[i] == s[i]);
                assert(forall|j: int| i < j < s.len() - 1 ==> s[j] == s.drop_last()[j]);
            },
        }
    }
}

/// An ordered sequence of timed lyric lines, sorted by timestamp.
pub struct LyricDocument {
    lines: Vec<TimedLine>,
}

impl View for LyricDocument {
    type V = Seq<(u64, Seq<char>)>;

    closed spec fn view(&self) -> Seq<(u64, Seq<char>)> {
        self.lines.deep_view()
    }
}

impl LyricDocument {
    /// The document invariant: lines are sorted by timestamp.
    pub open spec fn wf(&self) -> bool {
        timestamps_sorted(self@)
    }

    /// Builds a document from lines that are already collapsed and cleaned,
    /// rejecting any sequence whose timestamps decrease.
    pub fn from_lines(lines: Vec<TimedLine>) -> (r: Result<LyricDocument, ParseError>)
        ensures
            timestamps_sorted(lines.deep_view()) <==> r is Ok,
            r matches Ok(d) ==> d@ == lines.deep_view() && d.wf(),
            r is Err ==> r == Err::<LyricDocument, ParseError>(ParseError::MalformedTimestamps),
    {
        let n = lines.len();
        let mut i: usize = 1;
        while i < n
            invariant
                1 <= i,
                n == lines.deep_view().len(),
                forall|a: int, b: int|
                    0 <= a <= b < i ==> lines.deep_view()[a].0 <= lines.deep_view()[b].0,
            decreases n - i,
        {
            assert(lines.deep_view()[i - 1] == lines@[i - 1].deep_view());
            assert(lines.deep_view()[i as int] == lines@[i as int].deep_view());
            if lines[i - 1].timestamp_ms > lines[i].timestamp_ms {
                return Err(ParseError::MalformedTimestamps);
            }
            i = i + 1;
        }
        Ok(LyricDocument { lines })
    }

    /// The ordered lines themselves.
    pub fn lines(&self) -> (r: &Vec<TimedLine>)
        ensures
            r.deep_view() == self@,
    {
        &self.lines
    }

    /// Number of lines.
    pub fn len(&self) -> (r: usize)
        ensures
            r == self@.len(),
    {
        self.lines.len()
    }

    /// The timestamp of line `i`.
    pub fn timestamp_ms(&self, i: usize) -> (r: u64)
        requires
            i < self@.len(),
        ensures
            r == self@[i as int].0,
    {
        self.lines[i].timestamp_ms
    }

    /// The text of line `i`.
    pub fn line_text(&self, i: usize) -> (r: &String)
        requires
            i < self@.len(),
        ensures
            r@ == self@[i as int].1,
    {
        &self.lines[i].text
    }

    /// Index of the last line whose timestamp is at or before `position_ms`,
    /// or `None` when the position precedes the whole document.
    pub fn find_line_index(&self, position_ms: u64) -> (r: Option<usize>)
        requires
            self.wf(),
        ensures
            match r {
                None => self@.len() == 0 || position_ms < self@[0].0,
                Some(i) => i < self@.len() && self@[i as int].0 <= position_ms
                    && forall|j: int| i < j < self@.len() ==> self@[j].0 > position_ms,
            },
            match r {
                None => spec_find_line_index(self@, position_ms) is None,
                Some(i) => spec_find_line_index(self@, position_ms) == Some(i as int),
            },
    {
        let mut lo: usize = 0;
        let mut hi: usize = self.lines.len();
        while lo < hi
            invariant
                lo <= hi <= self@.len(),
                self.wf(),
                forall|j: int| 0 <= j < lo ==> self@[j].0 <= position_ms,
                forall|j: int| hi <= j < self@.len() ==> self@[j].0 > position_ms,
            decreases hi - lo,
        {
            let mid = lo + (hi - lo) / 2;
            assert(self@[mid as int] == self.lines@[mid as int].deep_view());
            if self.lines[mid].timestamp_ms <= position_ms {
                lo = mid + 1;
            } else {
                hi = mid;
            }
        }
        proof {
            lemma_spec_find_line_index(self@, position_ms);
        }
        if lo == 0 {
            None
        } else {
            Some(lo - 1)
        }
    }
}

} // verus!
