use ilyrics::Query;
use ilyrics::QueryAction;

#[test]
fn a_new_track_needs_a_fetch_and_is_then_unchanged() {
    let mut query = Query::new();
    assert_eq!(query.update("Lemon Tree", "Fool's Garden"), QueryAction::FetchNeeded);
    assert_eq!(query.update("Lemon Tree", "Fool's Garden"), QueryAction::Unchanged);
    assert_eq!(query.update("Lemon Tree", "Fool's Garden"), QueryAction::Unchanged);
}

#[test]
fn changing_tracks_needs_a_new_fetch() {
    let mut query = Query::new();
    assert_eq!(query.update("Lemon Tree", "Fool's Garden"), QueryAction::FetchNeeded);
    assert_eq!(query.update("Yellow", "Coldplay"), QueryAction::FetchNeeded);
    assert_eq!(query.update("Yellow", "Coldplay"), QueryAction::Unchanged);
}

#[test]
fn blank_track_information_clears_without_fetching() {
    let mut query = Query::new();
    assert_eq!(query.update("", "Coldplay"), QueryAction::ClearLyrics);
    assert_eq!(query.update("Yellow", ""), QueryAction::ClearLyrics);
    // The key is not remembered, so the answer repeats each tick.
    assert_eq!(query.update("", "Coldplay"), QueryAction::ClearLyrics);
}

#[test]
fn a_failed_fetch_is_not_retried_until_the_track_changes() {
    let mut query = Query::new();
    // The key is remembered as soon as the fetch is asked for, so even if
    // the fetch then fails, the same track asks for no second fetch.
    assert_eq!(query.update("Yellow", "Coldplay"), QueryAction::FetchNeeded);
    assert_eq!(query.update("Yellow", "Coldplay"), QueryAction::Unchanged);
    assert_eq!(query.update("Lemon Tree", "Fool's Garden"), QueryAction::FetchNeeded);
}
