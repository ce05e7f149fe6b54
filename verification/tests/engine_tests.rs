use ilyrics::LyricsEngine;
use ilyrics::build_document;

#[test]
fn end_to_end_line_changes_across_a_playthrough() {
    // Document with a long blank gap (2500..6000 lasts 3500 ms > 3000 ms,
    // so the blank line is retained).
    let raw = vec![
        (0, "Hello".to_string()),
        (2000, "World".to_string()),
        (2500, String::new()),
        (6000, "Goodbye".to_string()),
    ];
    let doc = build_document(&raw).unwrap();
    assert_eq!(doc.len(), 4);

    let mut engine = LyricsEngine::new();
    assert!(!engine.set_lyrics(Some(doc)));

    let mut events: Vec<(u64, Option<String>, Option<String>)> = Vec::new();
    let mut pos: u64 = 0;
    while pos <= 7000 {
        if engine.set_player_position(Some(pos)) {
            events.push((
                pos,
                engine.display.line_current.clone(),
                engine.display.line_next.clone(),
            ));
        }
        pos += 100;
    }

    let some = |s: &str| Some(s.to_string());
    assert_eq!(
        events,
        vec![
            // Playback starts: "Hello" becomes current and next at once.
            (0, some("Hello"), some("Hello")),
            // The look-ahead (350 ms) crosses 2000 before playback does.
            (1700, some("Hello"), some("World")),
            // The blank gap becomes current; hysteresis had held "World"
            // as next until then.
            (2500, some(""), some("")),
            // The look-ahead crosses 6000: "Goodbye" scrolls in.
            (5700, some(""), some("Goodbye")),
        ],
    );

    // By the end "Goodbye" is current.
    assert_eq!(engine.display.line_current.as_deref(), Some("Goodbye"));
    assert_eq!(engine.display.line_next_non_empty.as_deref(), Some("Goodbye"));

    // Clearing the lyrics is itself a line-change event, and both lines
    // resolve to nothing.
    assert!(engine.set_lyrics(None));
    assert_eq!(engine.display.line_current, None);
    assert_eq!(engine.display.line_next, None);
}

#[test]
fn losing_the_position_clears_the_next_line() {
    let raw = vec![(0, "only".to_string())];
    let doc = build_document(&raw).unwrap();
    let mut engine = LyricsEngine::new();
    engine.set_lyrics(Some(doc));
    assert!(engine.set_player_position(Some(0)));
    assert_eq!(engine.display.line_next.as_deref(), Some("only"));
    assert!(engine.set_player_position(None));
    assert_eq!(engine.display.line_current, None);
    assert_eq!(engine.display.line_next, None);
    assert!(!engine.set_player_position(None));
}
