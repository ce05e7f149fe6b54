//! Reading a lyric document out of LRC text: parsing through the `lrc`
//! crate, per-line cleanup (HTML entity decoding and trimming), and the
//! collapse rule that drops brief empty lines so silent gaps do not flash
//! a blank box.

use vstd::prelude::*;

use crate::document::LyricDocument;
use crate::document::ParseError;
use crate::document::TimedLine;
use crate::document::timestamps_sorted;

verus! {

/// What `html_escape::decode_html_entities` returns for a text.
pub uninterp spec fn decoded(s: Seq<char>) -> Seq<char>;

/// What `str::trim` returns for a text.
pub uninterp spec fn trimmed(s: Seq<char>) -> Seq<char>;

/// What the `lrc` crate parses out of an LRC text: the timed lines in
/// timestamp order, or `None` when the text is not well-formed LRC data.
pub uninterp spec fn lrc_timed_lines(s: Seq<char>) -> Option<Seq<(i64, Seq<char>)>>;

/// Relies on html_escape::decode_html_entities: decoding HTML entities is a
/// pure function of the characters alone, and an empty string stays empty.
#[verifier::external_body]
fn decode_entities(s: &str) -> (r: String)
    ensures
        r@ == decoded(s@),
        s@.len() == 0 ==> r@.len() == 0,
{
    html_escape::decode_html_entities(s).into_owned()
}

/// Relies on str::trim: removing leading and trailing whitespace is a pure
/// function of the characters alone, and an empty string stays empty.
#[verifier::external_body]
fn trim_text(s: &str) -> (r: &str)
    ensures
        r@ == trimmed(s@),
        s@.len() == 0 ==> r@.len() == 0,
{
    s.trim()
}

/// Relies on lrc::Lyrics::from_str, lrc::Lyrics::get_timed_lines and
/// lrc::TimeTag::get_timestamp: parsing is a pure function of the text, and
/// the parser keeps its timed lines sorted by timestamp (each line is
/// inserted at its sorted position).
#[verifier::external_body]
fn parse_lrc(s: &str) -> (r: Option<Vec<(i64, String)>>)
    ensures
        r.deep_view() == lrc_timed_lines(s@),
        r matches Some(lines) ==> forall|i: int, j: int|
            0 <= i <= j < lines.deep_view().len()
                ==> lines.deep_view()[i].0 <= lines.deep_view()[j].0,
{
    let lyrics = lrc::Lyrics::from_str(s).ok()?;
    let pairs = lyrics
        .get_timed_lines()
        .iter()
        .map(|(tag, text)| (tag.get_timestamp(), text.to_string()))
        .collect();
    Some(pairs)
}

/// A raw line's text after entity decoding and trimming.
pub open spec fn clean_text(s: Seq<char>) -> Seq<char> {
    trimmed(decoded(s))
}

fn clean_line(s: &String) -> (r: String)
    ensures
        r@ == clean_text(s@),
{
    let decoded_text = decode_entities(s.as_str());
    let trimmed_text = trim_text(decoded_text.as_str());
    trimmed_text.to_owned()
}

/// Whether raw line `i` survives document construction: a line is dropped
/// only when its cleaned text is empty and the next line starts within
/// 3000 ms; a trailing empty line is kept.
pub open spec fn keeps(raw: Seq<(i64, Seq<char>)>, i: int) -> bool {
    ||| clean_text(raw[i].1).len() > 0
    ||| i == raw.len() - 1
    ||| raw[i + 1].0 - raw[i].0 > 3000
}

/// The kept lines from index `i` on, cleaned, in order.
pub open spec fn collapsed_from(raw: Seq<(i64, Seq<char>)>, i: int) -> Seq<(u64, Seq<char>)>
    decreases raw.len() - i when 0 <= i <= raw.len()
{
    if i >= raw.len() {
        Seq::empty()
    } else if keeps(raw, i) {
        seq![(raw[i].0 as u64, clean_text(raw[i].1))] + collapsed_from(raw, i + 1)
    } else {
        collapsed_from(raw, i + 1)
    }
}

/// The document contents built from raw parsed lines: every kept line,
/// cleaned, in order.
pub open spec fn collapsed(raw: Seq<(i64, Seq<char>)>) -> Seq<(u64, Seq<char>)> {
    collapsed_from(raw, 0)
}

/// The timestamps of the kept lines are consistent: none is negative and
/// they never decrease. Construction fails exactly when this does not hold.
pub open spec fn kept_timestamps_ok(raw: Seq<(i64, Seq<char>)>) -> bool {
    &&& forall|i: int| 0 <= i < raw.len() && keeps(raw, i) ==> raw[i].0 >= 0
    &&& forall|i: int, j: int|
        0 <= i <= j < raw.len() && keeps(raw, i) && keeps(raw, j) ==> raw[i].0 <= raw[j].0
}

/// Builds a document from raw parsed `(timestamp, text)` lines: cleans each
/// text, applies the collapse rule, and rejects inconsistent timestamps.
pub fn build_document(raw: &Vec<(i64, String)>) -> (r: Result<LyricDocument, ParseError>)
    ensures
        r is Ok <==> kept_timestamps_ok(raw.deep_view()),
        r matches Ok(d) ==> d@ == collapsed(raw.deep_view()) && d.wf(),
        r is Err ==> r == Err::<LyricDocument, ParseError>(ParseError::MalformedTimestamps),
{
    let ghost raw_dv = raw.deep_view();
    let n = raw.len();
    let mut out: Vec<TimedLine> = Vec::new();
    let mut last_ts: i64 = 0;
    let ghost mut last_idx: int = 0;
    let mut i: usize = 0;
    proof {
        assert(out.deep_view() =~= Seq::<(u64, Seq<char>)>::empty());
        assert(out.deep_view() + collapsed_from(raw_dv, 0) =~= collapsed(raw_dv));
    }
    while i < n
        invariant
            raw_dv == raw.deep_view(),
            n == raw_dv.len(),
            i <= n,
            collapsed(raw_dv) == out.deep_view() + collapsed_from(raw_dv, i as int),
            timestamps_sorted(out.deep_view()),
            out.len() > 0 ==> {
                &&& 0 <= last_idx < i
                &&& keeps(raw_dv, last_idx)
                &&& raw_dv[last_idx].0 == last_ts
                &&& last_ts >= 0
            },
            forall|m: int| 0 <= m < out.deep_view().len() ==> out.deep_view()[m].0 <= last_ts,
            forall|k: int| 0 <= k < i && keeps(raw_dv, k) ==> raw_dv[k].0 >= 0,
            forall|k: int| 0 <= k < i && keeps(raw_dv, k) ==> raw_dv[k].0 <= last_ts,
            forall|k1: int, k2: int|
                0 <= k1 <= k2 < i && keeps(raw_dv, k1) && keeps(raw_dv, k2)
                    ==> raw_dv[k1].0 <= raw_dv[k2].0,
            out.len() == 0 ==> forall|k: int| 0 <= k < i ==> !keeps(raw_dv, k),
        decreases n - i,
    {
        assert(raw_dv[i as int] == raw@[i as int].deep_view());
        let ts = raw[i].0;
        let cleaned = clean_line(&raw[i].1);
        let mut kept = !cleaned.as_str().is_empty() || i + 1 == n;
        if !kept {
            assert(raw_dv[i + 1] == raw@[i + 1].deep_view());
            kept = (raw[i + 1].0 as i128) - (ts as i128) > 3000;
        }
        assert(kept == keeps(raw_dv, i as int));
        if kept {
            if ts < 0 || (out.len() > 0 && ts < last_ts) {
                proof {
                    assert(keeps(raw_dv, i as int));
                    if ts >= 0 {
                        assert(keeps(raw_dv, last_idx) && raw_dv[last_idx].0 > raw_dv[i as int].0);
                    }
                    assert(!kept_timestamps_ok(raw_dv));
                }
                return Err(ParseError::MalformedTimestamps);
            }
            let ghost pre_dv = out.deep_view();
            out.push(TimedLine { timestamp_ms: ts as u64, text: cleaned });
            proof {
                last_idx = i as int;
                assert(out.deep_view() =~= pre_dv
                    + seq![(raw_dv[i as int].0 as u64, clean_text(raw_dv[i as int].1))]);
                assert(collapsed_from(raw_dv, i as int)
                    == seq![(raw_dv[i as int].0 as u64, clean_text(raw_dv[i as int].1))]
                        + collapsed_from(raw_dv, i + 1));
                assert(out.deep_view() + collapsed_from(raw_dv, i + 1) =~= collapsed(raw_dv));
            }
            last_ts = ts;
        } else {
            assert(collapsed_from(raw_dv, i as int) == collapsed_from(raw_dv, i + 1));
        }
        i = i + 1;
    }
    assert(collapsed_from(raw_dv, n as int) =~= Seq::<(u64, Seq<char>)>::empty());
    assert(out.deep_view() =~= collapsed(raw_dv));
    match LyricDocument::from_lines(out) {
        Ok(d) => Ok(d),
        Err(_) => {
            assert(false);
            Err(ParseError::MalformedTimestamps)
        },
    }
}

/// Parses LRC text and builds the lyric document from it: the construction
/// entry point used when a fetched lyric body arrives.
pub fn document_from_lrc(text: &str) -> (r: Result<LyricDocument, ParseError>)
    ensures
        r == Err::<LyricDocument, ParseError>(ParseError::UnparsableSource)
            <==> lrc_timed_lines(text@) is None,
        lrc_timed_lines(text@) matches Some(lines) ==> {
            &&& (r is Ok <==> kept_timestamps_ok(lines))
            &&& (r matches Ok(d) ==> d@ == collapsed(lines) && d.wf())
            &&& (!kept_timestamps_ok(lines)
                ==> r == Err::<LyricDocument, ParseError>(ParseError::MalformedTimestamps))
        },
{
    match parse_lrc(text) {
        None => Err(ParseError::UnparsableSource),
        Some(lines) => build_document(&lines),
    }
}

} // verus!
