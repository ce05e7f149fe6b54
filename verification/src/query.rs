//! The lyric-query key tracker: decides, once per poll tick, whether the
//! current track calls for a new lyric fetch, for clearing the lyrics, or
//! for nothing. A fetch is asked for only when the `(name, artist)` pair
//! differs from the last fetched one, so a failed fetch is not retried
//! until the track changes again.

use vstd::prelude::*;

verus! {

/// The key a track's lyrics are looked up under: name and artist joined
/// with one space.
pub open spec fn query_key(name: Seq<char>, artist: Seq<char>) -> Seq<char> {
    name + seq![' '] + artist
}

/// What the shell should do about lyrics this tick.
#[derive(Clone, Copy, Debug, PartialEq, Eq, Structural)]
pub enum QueryAction {
    /// The key is unchanged: keep the current document.
    Unchanged,
    /// The name or artist is blank: show no lyrics, without a fetch.
    ClearLyrics,
    /// A new key: fetch lyrics for it.
    FetchNeeded,
}

/// Tracks the last key a fetch was started for.
pub struct Query {
    last_query: String,
}

impl Query {
    /// The key of the last fetch, empty before the first one.
    pub closed spec fn last_query(&self) -> Seq<char> {
        self.last_query@
    }

    pub fn new() -> (r: Query)
        ensures
            r.last_query() == Seq::<char>::empty(),
    {
        Query { last_query: String::new() }
    }

    /// Decides what this tick's track information calls for, and remembers
    /// the key when a fetch is asked for.
    pub fn update(&mut self, name: &str, artist: &str) -> (r: QueryAction)
        ensures
            (r == QueryAction::Unchanged
                <==> old(self).last_query() == query_key(name@, artist@)),
            (r == QueryAction::ClearLyrics
                <==> old(self).last_query() != query_key(name@, artist@)
                    && (name@.len() == 0 || artist@.len() == 0)),
            (r == QueryAction::FetchNeeded
                <==> old(self).last_query() != query_key(name@, artist@)
                    && name@.len() > 0 && artist@.len() > 0),
            final(self).last_query() == (
                if r == QueryAction::FetchNeeded {
                    query_key(name@, artist@)
                } else {
                    old(self).last_query()
                }),
    {
        let key = name.to_owned().concat(" ").concat(artist);
        proof {
            reveal_strlit(" ");
            assert(" "@ =~= seq![' ']);
            assert(key@ == query_key(name@, artist@));
        }
        if self.last_query == key {
            QueryAction::Unchanged
        } else if name.is_empty() || artist.is_empty() {
            QueryAction::ClearLyrics
        } else {
            self.last_query = key;
            QueryAction::FetchNeeded
        }
    }
}

} // verus!
