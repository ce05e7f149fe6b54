use ilyrics::LyricDocument;
use ilyrics::ParseError;
use ilyrics::TimedLine;

fn line(timestamp_ms: u64, text: &str) -> TimedLine {
    TimedLine { timestamp_ms, text: text.to_string() }
}

#[test]
fn find_before_first_line_is_none() {
    let doc = LyricDocument::from_lines(vec![line(1000, "a"), line(2000, "b")]).unwrap();
    assert_eq!(doc.find_line_index(0), None);
    assert_eq!(doc.find_line_index(999), None);
}

#[test]
fn find_returns_last_line_at_or_before_position() {
    let doc =
        LyricDocument::from_lines(vec![line(0, "a"), line(2000, "b"), line(6000, "c")]).unwrap();
    assert_eq!(doc.find_line_index(0), Some(0));
    assert_eq!(doc.find_line_index(1999), Some(0));
    assert_eq!(doc.find_line_index(2000), Some(1));
    assert_eq!(doc.find_line_index(5999), Some(1));
    assert_eq!(doc.find_line_index(6000), Some(2));
    assert_eq!(doc.find_line_index(1_000_000), Some(2));
}

#[test]
fn find_on_empty_document_is_none() {
    let doc = LyricDocument::from_lines(vec![]).unwrap();
    assert_eq!(doc.find_line_index(0), None);
    assert_eq!(doc.find_line_index(u64::MAX), None);
}

#[test]
fn find_with_duplicate_timestamps_picks_the_last() {
    let doc =
        LyricDocument::from_lines(vec![line(5, "x"), line(5, "y"), line(9, "z")]).unwrap();
    assert_eq!(doc.find_line_index(5), Some(1));
    assert_eq!(doc.line_text(1).as_str(), "y");
}

#[test]
fn from_lines_rejects_decreasing_timestamps() {
    let r = LyricDocument::from_lines(vec![line(2000, "a"), line(1000, "b")]);
    assert_eq!(r.err(), Some(ParseError::MalformedTimestamps));
}

#[test]
fn document_accessors_read_back_the_lines() {
    let doc = LyricDocument::from_lines(vec![line(10, "alpha"), line(20, "beta")]).unwrap();
    assert_eq!(doc.len(), 2);
    assert_eq!(doc.timestamp_ms(0), 10);
    assert_eq!(doc.line_text(0).as_str(), "alpha");
    assert_eq!(doc.timestamp_ms(1), 20);
    assert_eq!(doc.line_text(1).as_str(), "beta");
    let lines = doc.lines();
    assert_eq!(lines.len(), 2);
    assert_eq!(lines[1].timestamp_ms, 20);
    assert_eq!(lines[1].text.as_str(), "beta");
}
