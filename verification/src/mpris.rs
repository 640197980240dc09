//! The control surface: what of the player it is told about, and which
//! playback intents its commands amount to. Times cross this surface in
//! microseconds.
use crate::protocol::{
    song_option_view, Playback, PlayerAction, PlayerActionView, PlayerInfo, Repeat, SeekMode,
    SongInfo, Volume,
};
use vstd::prelude::*;

verus! {

/// The number of microseconds in a second.
pub const MICROS_PER_SECOND: i64 = 1_000_000;

/// The most tracks that are listed at a time.
pub const TRACKS_LISTED: usize = 20;

/// What has changed between two snapshots of the player, of what the
/// control surface announces.
#[derive(Debug, Clone, Copy, PartialEq, Eq, Structural)]
pub struct Changes {
    pub playback_status: bool,
    pub metadata: bool,
    pub shuffle: bool,
    pub loop_status: bool,
    pub volume: bool,
}

/// What has changed from `before` to `after`. The metadata have changed
/// where the track that plays is another, or is described otherwise.
pub fn changes(before: &PlayerInfo, after: &PlayerInfo) -> (r: Changes)
    ensures
        r.playback_status == (before.playback != after.playback),
        r.metadata == (song_option_view(before.song_info) != song_option_view(after.song_info)),
        r.shuffle == (before.shuffled != after.shuffled),
        r.loop_status == (before.repeat != after.repeat),
        r.volume == (before.volume != after.volume),
{
    let same_song: bool = match (&before.song_info, &after.song_info) {
        (Some(a), Some(b)) => a.same(b),
        (None, None) => true,
        _ => false,
    };
    Changes {
        playback_status: before.playback != after.playback,
        metadata: !same_song,
        shuffle: before.shuffled != after.shuffled,
        loop_status: before.repeat != after.repeat,
        volume: before.volume != after.volume,
    }
}

/// The whole seconds in `micros` microseconds, rounded towards zero.
pub open spec fn whole_seconds(micros: int) -> int {
    if micros >= 0 {
        micros / 1_000_000
    } else {
        -((-micros) / 1_000_000)
    }
}

/// The whole seconds in `micros` microseconds, rounded towards zero.
pub fn to_seconds(micros: i64) -> (r: i64)
    ensures
        r == whole_seconds(micros as int),
{
    if micros >= 0 {
        micros / MICROS_PER_SECOND
    } else if micros == i64::MIN {
        -9_223_372_036_854i64
    } else {
        -((-micros) / MICROS_PER_SECOND)
    }
}

/// The intent of a seek by `offset` microseconds from the current position.
pub fn seek(offset: i64) -> (r: PlayerAction)
    ensures
        r@ == (PlayerActionView::Seek {
            dt: whole_seconds(offset as int) as i64,
            mode: SeekMode::Relative,
        }),
{
    PlayerAction::Seek { dt: to_seconds(offset), mode: SeekMode::Relative }
}

/// Whether a request to go to `position` microseconds is taken: a track
/// plays, the request names that track, and the position lies within it.
pub open spec fn position_accepted(state: PlayerInfo, track_matches: bool, position: int) -> bool {
    &&& state.song_info is Some
    &&& track_matches
    &&& 0 <= whole_seconds(position) <= state.song_info->0.duration
}

/// The intent of a request to go to `position` microseconds within the
/// track that plays. `track_matches` says whether the request names that
/// track. A request for another track, or for a position outside of the
/// track, is ignored.
pub fn set_position(state: &PlayerInfo, track_matches: bool, position: i64) -> (r: Option<
    PlayerAction,
>)
    ensures
        r is Some == position_accepted(*state, track_matches, position as int),
        r is Some ==> r->0@ == (PlayerActionView::Seek {
            dt: whole_seconds(position as int) as i64,
            mode: SeekMode::Absolute,
        }),
{
    match &state.song_info {
        Some(song) => {
            let seconds: i64 = to_seconds(position);
            if seconds < 0 || seconds as u64 > song.duration || !track_matches {
                None
            } else {
                Some(PlayerAction::Seek { dt: seconds, mode: SeekMode::Absolute })
            }
        },
        None => None,
    }
}

/// The tracks that are listed: from the one that plays, and at most
/// [`TRACKS_LISTED`] of them. Nothing is listed where no track plays.
pub open spec fn listed(state: PlayerInfo) -> (int, int) {
    match state.track_index {
        Some(start) => {
            let len = state.tracklist.songs@.len() as int;
            let from = if start <= len {
                start as int
            } else {
                len
            };
            let to = if from + 20 <= len {
                from + 20
            } else {
                len
            };
            (from, to)
        },
        None => (0, 0),
    }
}

/// The range of the track list that is listed, as the index of its first
/// track and the index after its last.
pub fn tracks(state: &PlayerInfo) -> (r: (usize, usize))
    ensures
        (r.0 as int, r.1 as int) == listed(*state),
        r.0 <= r.1 <= state.tracklist.songs@.len(),
        r.1 - r.0 <= TRACKS_LISTED,
{
    match state.track_index {
        Some(start) => {
            let len: usize = state.tracklist.songs.len();
            let from: usize = if start <= len {
                start
            } else {
                len
            };
            let to: usize = if len - from >= TRACKS_LISTED {
                from + TRACKS_LISTED
            } else {
                len
            };
            (from, to)
        },
        None => (0, 0),
    }
}

/// The name of a repeat mode on the control surface.
pub open spec fn loop_status_spec(repeat: Repeat) -> Seq<char> {
    match repeat {
        Repeat::Off => "None"@,
        Repeat::Playlist => "Playlist"@,
        Repeat::Song => "Track"@,
    }
}

/// The name of a repeat mode on the control surface.
pub fn loop_status(repeat: Repeat) -> (r: String)
    ensures
        r@ == loop_status_spec(repeat),
{
    match repeat {
        Repeat::Off => "None".to_owned(),
        Repeat::Playlist => "Playlist".to_owned(),
        Repeat::Song => "Track".to_owned(),
    }
}

/// The intent of the command to play: it changes the pause state only of a
/// player that is paused.
pub fn play(state: &PlayerInfo) -> (r: PlayerAction)
    ensures
        r@ == PlayerActionView::PlayPause(state.playback == Playback::Pause),
{
    PlayerAction::PlayPause(state.playback == Playback::Pause)
}

/// The intent of the command to pause.
pub fn pause() -> (r: PlayerAction)
    ensures
        r@ == PlayerActionView::PlayPause(true),
{
    PlayerAction::PlayPause(true)
}

/// The intent of the command to end a pause.
pub fn unpause() -> (r: PlayerAction)
    ensures
        r@ == PlayerActionView::PlayPause(false),
{
    PlayerAction::PlayPause(false)
}

/// The intent of the command to set the volume to `percent` hundredths of
/// the full volume.
pub fn set_volume(percent: usize) -> (r: PlayerAction)
    ensures
        r@ == PlayerActionView::SetVolume(
            Volume::Absolute(
                if percent > 100 {
                    100
                } else {
                    percent
                },
            ),
        ),
{
    PlayerAction::SetVolume(Volume::Absolute(if percent > 100 { 100 } else { percent }))
}

/// The position of the player in microseconds, or the largest number of
/// them that can be told.
pub fn position(state: &PlayerInfo) -> (r: i64)
    ensures
        r == if state.position * 1_000_000 > i64::MAX {
            i64::MAX as int
        } else {
            state.position * 1_000_000
        },
{
    let micros: u128 = state.position as u128 * 1_000_000;
    if micros > i64::MAX as u128 {
        i64::MAX
    } else {
        micros as i64
    }
}

/// The length of a track in microseconds, or zero where it is beyond what
/// can be told.
pub fn length(song: &SongInfo) -> (r: u64)
    ensures
        r == if song.duration * 1_000_000 > u64::MAX {
            0
        } else {
            song.duration * 1_000_000
        },
{
    let micros: u128 = song.duration as u128 * 1_000_000;
    if micros > u64::MAX as u128 {
        0
    } else {
        micros as u64
    }
}

/// What the control surface tells of a track.
#[derive(Debug, Clone, PartialEq, Eq)]
pub struct Metadata {
    /// Length of the track, in microseconds.
    pub length: u64,
    pub title: String,
    pub artist: String,
    pub url: String,
    pub art_url: String,
}

/// What the control surface tells of `song`.
pub fn make_metadata(song: &SongInfo) -> (r: Metadata)
    ensures
        r.length == if song.duration * 1_000_000 > u64::MAX {
            0
        } else {
            song.duration * 1_000_000
        },
        r.title@ == song.title@,
        r.artist@ == song.artist@,
        r.url@ == song.url@,
        r.art_url@ == song.cover_url@,
{
    Metadata {
        length: length(song),
        title: song.title.clone(),
        artist: song.artist.clone(),
        url: song.url.clone(),
        art_url: song.cover_url.clone(),
    }
}

/// What the control surface tells of the track that plays; nothing where
/// none does.
pub fn metadata(state: &PlayerInfo) -> (r: Option<Metadata>)
    ensures
        r is Some == state.song_info is Some,
        r is Some ==> {
            &&& r->0.title@ == state.song_info->0.title@
            &&& r->0.artist@ == state.song_info->0.artist@
            &&& r->0.url@ == state.song_info->0.url@
            &&& r->0.art_url@ == state.song_info->0.cover_url@
            &&& r->0.length == if state.song_info->0.duration * 1_000_000 > u64::MAX {
                0
            } else {
                state.song_info->0.duration * 1_000_000
            }
        },
{
    match &state.song_info {
        Some(song) => Some(make_metadata(song)),
        None => None,
    }
}

} // verus!
