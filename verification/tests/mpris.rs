use yamav3::mpris::{
    changes, length, loop_status, make_metadata, metadata, pause, play, position, seek,
    set_position, set_volume, to_seconds, tracks, unpause, Changes, Metadata,
};
use yamav3::protocol::{
    Playback, PlayerAction, PlayerInfo, PlaylistInfo, Repeat, SeekMode, SongInfo, Volume,
};

fn song(id: &str, duration: u64) -> SongInfo {
    SongInfo { id: id.to_string(), title: id.to_string(), duration, ..Default::default() }
}

fn playing(id: &str, duration: u64) -> PlayerInfo {
    PlayerInfo { song_info: Some(song(id, duration)), ..Default::default() }
}

fn nothing() -> Changes {
    Changes { playback_status: false, metadata: false, shuffle: false, loop_status: false, volume: false }
}

#[test]
fn nothing_changes_between_equal_snapshots() {
    assert_eq!(changes(&playing("a", 10), &playing("a", 10)), nothing());
    assert_eq!(changes(&PlayerInfo::default(), &PlayerInfo::default()), nothing());
    // what the control surface does not announce does not count
    let moved = PlayerInfo { position: 9, autoplay: true, ..playing("a", 10) };
    assert_eq!(changes(&playing("a", 10), &moved), nothing());
}

#[test]
fn each_change_is_told_apart() {
    let before = playing("a", 10);
    let after = PlayerInfo { playback: Playback::Play, ..playing("a", 10) };
    assert_eq!(changes(&before, &after), Changes { playback_status: true, ..nothing() });
    assert_eq!(changes(&before, &playing("b", 10)), Changes { metadata: true, ..nothing() });
    assert_eq!(changes(&before, &playing("a", 11)), Changes { metadata: true, ..nothing() });
    assert_eq!(changes(&before, &PlayerInfo::default()), Changes { metadata: true, ..nothing() });
    let after = PlayerInfo { shuffled: true, ..playing("a", 10) };
    assert_eq!(changes(&before, &after), Changes { shuffle: true, ..nothing() });
    let after = PlayerInfo { repeat: Repeat::Song, ..playing("a", 10) };
    assert_eq!(changes(&before, &after), Changes { loop_status: true, ..nothing() });
    let after = PlayerInfo { volume: 3, ..playing("a", 10) };
    assert_eq!(changes(&before, &after), Changes { volume: true, ..nothing() });
}

#[test]
fn microseconds_round_towards_zero() {
    assert_eq!(to_seconds(0), 0);
    assert_eq!(to_seconds(999_999), 0);
    assert_eq!(to_seconds(1_000_000), 1);
    assert_eq!(to_seconds(-999_999), 0);
    assert_eq!(to_seconds(-1_000_000), -1);
    assert_eq!(to_seconds(-5_500_000), -5);
    assert_eq!(to_seconds(i64::MAX), i64::MAX / 1_000_000);
    assert_eq!(to_seconds(i64::MIN), i64::MIN / 1_000_000);
}

#[test]
fn seek_is_relative_in_seconds() {
    assert_eq!(seek(5_000_000), PlayerAction::Seek { dt: 5, mode: SeekMode::Relative });
    assert_eq!(seek(-2_500_000), PlayerAction::Seek { dt: -2, mode: SeekMode::Relative });
}

#[test]
fn set_position_within_the_current_track() {
    let state = playing("a", 100);
    assert_eq!(
        set_position(&state, true, 30_000_000),
        Some(PlayerAction::Seek { dt: 30, mode: SeekMode::Absolute })
    );
    assert_eq!(
        set_position(&state, true, 100_000_000),
        Some(PlayerAction::Seek { dt: 100, mode: SeekMode::Absolute })
    );
    assert_eq!(set_position(&state, true, 0), Some(PlayerAction::Seek { dt: 0, mode: SeekMode::Absolute }));
    // beyond the end, before the start, another track, no track
    assert_eq!(set_position(&state, true, 101_000_000), None);
    assert_eq!(set_position(&state, true, -1_000_000), None);
    assert_eq!(set_position(&state, false, 30_000_000), None);
    assert_eq!(set_position(&PlayerInfo::default(), true, 0), None);
}

#[test]
fn at_most_twenty_tracks_are_listed() {
    let list = |n: usize| PlaylistInfo {
        songs: (0..n).map(|i| song(&i.to_string(), 1)).collect(),
        length: n,
        ..Default::default()
    };
    let state = |n: usize, at: Option<usize>| PlayerInfo {
        tracklist: list(n),
        track_index: at,
        ..Default::default()
    };
    assert_eq!(tracks(&state(50, Some(0))), (0, 20));
    assert_eq!(tracks(&state(50, Some(29))), (29, 49));
    assert_eq!(tracks(&state(50, Some(30))), (30, 50));
    assert_eq!(tracks(&state(50, Some(45))), (45, 50));
    assert_eq!(tracks(&state(50, Some(50))), (50, 50));
    assert_eq!(tracks(&state(50, Some(90))), (50, 50));
    assert_eq!(tracks(&state(3, Some(1))), (1, 3));
    assert_eq!(tracks(&state(3, None)), (0, 0));
}

#[test]
fn names_on_the_control_surface() {
    assert_eq!(loop_status(Repeat::Off), "None");
    assert_eq!(loop_status(Repeat::Playlist), "Playlist");
    assert_eq!(loop_status(Repeat::Song), "Track");
}

#[test]
fn commands_become_intents() {
    assert_eq!(pause(), PlayerAction::PlayPause(true));
    assert_eq!(unpause(), PlayerAction::PlayPause(false));
    let paused = PlayerInfo { playback: Playback::Pause, ..Default::default() };
    assert_eq!(play(&paused), PlayerAction::PlayPause(true));
    let running = PlayerInfo { playback: Playback::Play, ..Default::default() };
    assert_eq!(play(&running), PlayerAction::PlayPause(false));
    assert_eq!(set_volume(40), PlayerAction::SetVolume(Volume::Absolute(40)));
    assert_eq!(set_volume(100), PlayerAction::SetVolume(Volume::Absolute(100)));
    assert_eq!(set_volume(101), PlayerAction::SetVolume(Volume::Absolute(100)));
}

#[test]
fn times_in_microseconds() {
    let state = PlayerInfo { position: 12, ..Default::default() };
    assert_eq!(position(&state), 12_000_000);
    let far = PlayerInfo { position: u64::MAX, ..Default::default() };
    assert_eq!(position(&far), i64::MAX);
    assert_eq!(length(&song("a", 3)), 3_000_000);
    assert_eq!(length(&song("a", u64::MAX)), 0);
    assert_eq!(length(&song("a", u64::MAX / 1_000_000)), (u64::MAX / 1_000_000) * 1_000_000);
}

#[test]
fn metadata_of_the_track_that_plays() {
    let song = SongInfo {
        title: "Tune".to_string(),
        artist: "Band".to_string(),
        cover_url: "cover".to_string(),
        id: "id".to_string(),
        url: "url".to_string(),
        duration: 7,
    };
    let told = Metadata {
        length: 7_000_000,
        title: "Tune".to_string(),
        artist: "Band".to_string(),
        url: "url".to_string(),
        art_url: "cover".to_string(),
    };
    assert_eq!(make_metadata(&song), told);
    let state = PlayerInfo { song_info: Some(song), ..Default::default() };
    assert_eq!(metadata(&state), Some(told));
    assert_eq!(metadata(&PlayerInfo::default()), None);
}
