use ilyrics::ParseError;
use ilyrics::build_document;
use ilyrics::document_from_lrc;

#[test]
fn brief_empty_line_is_collapsed() {
    let raw = vec![(0, "a".to_string()), (1000, String::new()), (4000, "b".to_string())];
    let doc = build_document(&raw).unwrap();
    assert_eq!(doc.len(), 2);
    assert_eq!(doc.timestamp_ms(0), 0);
    assert_eq!(doc.line_text(0).as_str(), "a");
    assert_eq!(doc.timestamp_ms(1), 4000);
    assert_eq!(doc.line_text(1).as_str(), "b");
}

#[test]
fn long_empty_line_is_retained() {
    let raw = vec![(0, "a".to_string()), (1000, String::new()), (5000, "b".to_string())];
    let doc = build_document(&raw).unwrap();
    assert_eq!(doc.len(), 3);
    assert_eq!(doc.timestamp_ms(1), 1000);
    assert_eq!(doc.line_text(1).as_str(), "");
}

#[test]
fn trailing_empty_line_is_retained() {
    let raw = vec![(0, "a".to_string()), (1000, String::new())];
    let doc = build_document(&raw).unwrap();
    assert_eq!(doc.len(), 2);
    assert_eq!(doc.line_text(1).as_str(), "");
}

#[test]
fn negative_timestamp_is_malformed() {
    let raw = vec![(-1, "a".to_string())];
    assert_eq!(build_document(&raw).err(), Some(ParseError::MalformedTimestamps));
}

#[test]
fn decreasing_kept_timestamps_are_malformed() {
    let raw = vec![(5000, "a".to_string()), (1000, "b".to_string())];
    assert_eq!(build_document(&raw).err(), Some(ParseError::MalformedTimestamps));
}

#[test]
fn decreasing_timestamp_on_a_collapsed_line_is_ignored() {
    // The first line is empty and lasts -4000 ms <= 3000 ms, so it is
    // collapsed away; only the kept lines must be consistent.
    let raw = vec![(5000, String::new()), (1000, "b".to_string())];
    let doc = build_document(&raw).unwrap();
    assert_eq!(doc.len(), 1);
    assert_eq!(doc.timestamp_ms(0), 1000);
}

#[test]
fn html_entities_are_decoded_during_construction() {
    let raw = vec![(0, "a &amp; b".to_string())];
    let doc = build_document(&raw).unwrap();
    assert_eq!(doc.line_text(0).as_str(), "a & b");
}

#[test]
fn surrounding_whitespace_is_trimmed_during_construction() {
    let raw = vec![(0, "  hello  ".to_string())];
    let doc = build_document(&raw).unwrap();
    assert_eq!(doc.line_text(0).as_str(), "hello");
}

#[test]
fn whitespace_only_line_counts_as_empty_for_collapse() {
    let raw = vec![(0, "a".to_string()), (1000, "   ".to_string()), (4000, "b".to_string())];
    let doc = build_document(&raw).unwrap();
    assert_eq!(doc.len(), 2);
    assert_eq!(doc.timestamp_ms(1), 4000);
}

#[test]
fn lrc_text_parses_into_a_document() {
    let doc = document_from_lrc("[00:10.00]Hello\n[00:20.00]World").unwrap();
    assert_eq!(doc.len(), 2);
    assert_eq!(doc.timestamp_ms(0), 10_000);
    assert_eq!(doc.line_text(0).as_str(), "Hello");
    assert_eq!(doc.timestamp_ms(1), 20_000);
    assert_eq!(doc.line_text(1).as_str(), "World");
}

#[test]
fn lrc_collapse_applies_to_parsed_text() {
    let doc = document_from_lrc("[00:00.00]a\n[00:01.00]\n[00:04.00]b").unwrap();
    assert_eq!(doc.len(), 2);
    assert_eq!(doc.line_text(1).as_str(), "b");
}

#[test]
fn malformed_lrc_is_unparsable() {
    let r = document_from_lrc("[123:456]abc");
    assert_eq!(r.err(), Some(ParseError::UnparsableSource));
}
