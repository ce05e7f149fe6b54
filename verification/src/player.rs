//! The player adapter interface: what the engine needs from a media
//! player, with a platform-specific adapter underneath.

use vstd::prelude::*;

verus! {

/// One successful poll of the player: the playing track and its raw
/// elapsed-time reading in milliseconds. The reading is neither monotonic
/// nor fresh between polls; the position estimator smooths it.
#[derive(Debug)]
pub struct PlayerState {
    pub song_name: String,
    pub song_artist: String,
    pub player_position: u64,
}

/// A media player that can be polled for its current state; `None` when
/// nothing is playing or the player is unreachable.
pub trait Player {
    fn get_player_state(&mut self) -> Option<PlayerState>;
}

} // verus!
