use yamav3::engine::{EngineCall, LoopSettings, Player, Readings};
use yamav3::player::PlayerHandler;
use yamav3::protocol::{
    GetRequest, Playback, PlayerAction, PlaylistInfo, Repeat, Request, SeekMode, SetRequest,
    SongInfo, Volume,
};

fn song(name: &str) -> SongInfo {
    SongInfo {
        title: name.to_string(),
        artist: "someone".to_string(),
        cover_url: String::new(),
        id: name.to_string(),
        url: format!("https://example.org/{name}"),
        duration: 200,
    }
}

fn playlist(names: &[&str]) -> PlaylistInfo {
    PlaylistInfo {
        title: "mix".to_string(),
        length: names.len(),
        cover_url: String::new(),
        id: "mix-1".to_string(),
        songs: names.iter().map(|n| song(n)).collect(),
    }
}

fn load(name: &str) -> EngineCall {
    EngineCall::Load(format!("\"https://example.org/{name}\""))
}

fn readings(paused: bool, time_pos: i64) -> Readings {
    Readings {
        duration: Some(200),
        time_pos: Some(time_pos),
        volume: Some(40),
        paused: Some(paused),
        eof_reached: Some(false),
        idle_active: Some(false),
    }
}

fn at_end_of_stream() -> Readings {
    Readings {
        duration: Some(200),
        time_pos: Some(200),
        volume: Some(40),
        paused: Some(false),
        eof_reached: Some(true),
        idle_active: Some(false),
    }
}

fn handler_with(names: &[&str]) -> PlayerHandler {
    let mut handler = PlayerHandler::new();
    let calls = handler.handle_action(PlayerAction::SetTrackList(playlist(names)), &readings(true, 0));
    assert!(calls.is_empty());
    handler
}

#[test]
fn play_surrounds_the_url_with_quotes() {
    let player = Player::new();
    assert_eq!(player.play("file:///a b.ogg"), EngineCall::Load("\"file:///a b.ogg\"".to_string()));
}

#[test]
fn playback_status_of_a_player() {
    let mut player = Player::new();
    assert_eq!(player.get_playback_status(&readings(false, 0)), Playback::Stop);
    player.loaded(false);
    assert!(player.is_stopped());
    player.loaded(true);
    assert_eq!(player.get_playback_status(&readings(false, 0)), Playback::Play);
    assert_eq!(player.get_playback_status(&readings(true, 0)), Playback::Pause);
    assert_eq!(player.stop(), EngineCall::Stop);
    assert_eq!(player.get_playback_status(&readings(false, 0)), Playback::Stop);
}

#[test]
fn failed_readings_take_their_defaults() {
    let nothing = Readings {
        duration: None,
        time_pos: None,
        volume: None,
        paused: None,
        eof_reached: None,
        idle_active: None,
    };
    let mut player = Player::new();
    player.loaded(true);
    let state = player.get_state(&nothing);
    assert_eq!(state.duration, 0);
    assert_eq!(state.time_pos, 0);
    assert_eq!(state.volume, 0);
    assert_eq!(state.playpause, Playback::Pause);
    assert!(!state.eof);
    assert!(nothing.is_paused());
    assert_eq!(nothing.get_volume(), 100);
}

#[test]
fn idle_engine_counts_as_end_of_stream() {
    let idle = Readings { idle_active: Some(true), ..readings(false, 0) };
    assert!(Player::new().get_state(&idle).eof);
    assert!(Player::new().get_state(&at_end_of_stream()).eof);
    assert!(!Player::new().get_state(&readings(false, 3)).eof);
}

#[test]
fn volume_steps_stay_within_bounds() {
    let player = Player::new();
    let r = readings(false, 0);
    assert_eq!(player.incr_volume(&r, 5), EngineCall::SetVolume(45));
    assert_eq!(player.incr_volume(&r, -5), EngineCall::SetVolume(35));
    assert_eq!(player.incr_volume(&r, 100), EngineCall::SetVolume(100));
    assert_eq!(player.incr_volume(&r, -100), EngineCall::SetVolume(0));
    assert_eq!(player.incr_volume(&r, i64::MAX), EngineCall::SetVolume(100));
    assert_eq!(player.incr_volume(&r, i64::MIN), EngineCall::SetVolume(0));
}

#[test]
fn set_repeat_maps_to_loop_settings() {
    let player = Player::new();
    assert_eq!(
        player.set_repeat(Repeat::Off),
        EngineCall::SetLoop(LoopSettings { playlist: false, file: false })
    );
    assert_eq!(
        player.set_repeat(Repeat::Song),
        EngineCall::SetLoop(LoopSettings { playlist: false, file: true })
    );
    assert_eq!(
        player.set_repeat(Repeat::Playlist),
        EngineCall::SetLoop(LoopSettings { playlist: true, file: false })
    );
}

#[test]
fn play_pause_with_target_is_idempotent() {
    let mut handler = handler_with(&["a", "b"]);
    // the engine plays, and is asked to be paused
    let first = handler.handle_action(PlayerAction::PlayPause(true), &readings(false, 0));
    assert_eq!(first, vec![EngineCall::Pause]);
    // now it is paused: asking again does nothing
    let second = handler.handle_action(PlayerAction::PlayPause(true), &readings(true, 0));
    assert!(second.is_empty());
    let third = handler.handle_action(PlayerAction::PlayPause(false), &readings(true, 0));
    assert_eq!(third, vec![EngineCall::Unpause]);
    let fourth = handler.handle_action(PlayerAction::PlayPause(false), &readings(false, 0));
    assert!(fourth.is_empty());
}

#[test]
fn play_pause_toggle_flips() {
    let mut handler = handler_with(&["a"]);
    assert_eq!(
        handler.handle_action(PlayerAction::PlayPauseToggle, &readings(false, 0)),
        vec![EngineCall::Pause]
    );
    assert_eq!(
        handler.handle_action(PlayerAction::PlayPauseToggle, &readings(true, 0)),
        vec![EngineCall::Unpause]
    );
}

#[test]
fn stop_stops_unconditionally() {
    let mut handler = handler_with(&["a"]);
    handler.player.loaded(true);
    assert_eq!(handler.handle_action(PlayerAction::Stop, &readings(false, 9)), vec![EngineCall::Stop]);
    assert!(handler.player.is_stopped());
    assert_eq!(handler.handle_action(PlayerAction::Stop, &readings(false, 9)), vec![EngineCall::Stop]);
    assert!(handler.player.is_stopped());
}

#[test]
fn cycle_repeat_has_period_three() {
    let mut handler = PlayerHandler::new();
    assert_eq!(handler.repeat, Repeat::Off);
    let calls = handler.handle_action(PlayerAction::CycleRepeat, &readings(false, 0));
    assert_eq!(handler.repeat, Repeat::Playlist);
    assert_eq!(calls, vec![EngineCall::SetLoop(LoopSettings { playlist: true, file: false })]);
    handler.handle_action(PlayerAction::CycleRepeat, &readings(false, 0));
    assert_eq!(handler.repeat, Repeat::Song);
    handler.handle_action(PlayerAction::CycleRepeat, &readings(false, 0));
    assert_eq!(handler.repeat, Repeat::Off);
    for start in [Repeat::Off, Repeat::Playlist, Repeat::Song] {
        assert_eq!(start.cycle().cycle().cycle(), start);
        assert_ne!(start.cycle(), start);
    }
}

#[test]
fn set_repeat_sets_the_mode() {
    let mut handler = PlayerHandler::new();
    let calls = handler.handle_action(PlayerAction::SetRepeat(Repeat::Song), &readings(false, 0));
    assert_eq!(handler.repeat, Repeat::Song);
    assert_eq!(calls, vec![EngineCall::SetLoop(LoopSettings { playlist: false, file: true })]);
}

#[test]
fn seek_modes_map_to_engine_calls() {
    let handler = PlayerHandler::new();
    let r = readings(false, 50);
    assert_eq!(handler.seek(&r, 30, SeekMode::Absolute), vec![EngineCall::SeekAbsolute(30)]);
    assert_eq!(handler.seek(&r, -5, SeekMode::Relative), vec![EngineCall::SeekRelative(-5)]);
    assert_eq!(handler.seek(&r, 0, SeekMode::AbsolutePercent), vec![EngineCall::SeekPercent(0)]);
    assert_eq!(handler.seek(&r, 100, SeekMode::AbsolutePercent), vec![EngineCall::SeekPercent(100)]);
    assert_eq!(handler.seek(&r, 10, SeekMode::RelativePercent), vec![EngineCall::SeekAbsolute(70)]);
    assert_eq!(handler.seek(&r, -10, SeekMode::RelativePercent), vec![EngineCall::SeekAbsolute(30)]);
    assert_eq!(handler.seek(&r, -50, SeekMode::RelativePercent), vec![EngineCall::SeekAbsolute(0)]);
}

#[test]
fn relative_percent_seek_on_zero_length_media_does_nothing() {
    let handler = PlayerHandler::new();
    let r = Readings { duration: Some(0), ..readings(false, 0) };
    assert!(handler.seek(&r, 10, SeekMode::RelativePercent).is_empty());
    let unknown = Readings { duration: None, ..readings(false, 0) };
    assert!(handler.seek(&unknown, 10, SeekMode::RelativePercent).is_empty());
}

#[test]
fn set_volume_clamps() {
    let mut handler = PlayerHandler::new();
    let r = readings(false, 0);
    assert_eq!(
        handler.handle_action(PlayerAction::SetVolume(Volume::Absolute(70)), &r),
        vec![EngineCall::SetVolume(70)]
    );
    assert_eq!(
        handler.handle_action(PlayerAction::SetVolume(Volume::Absolute(250)), &r),
        vec![EngineCall::SetVolume(100)]
    );
    assert_eq!(
        handler.handle_action(PlayerAction::SetVolume(Volume::Absolute(usize::MAX)), &r),
        vec![EngineCall::SetVolume(100)]
    );
    assert_eq!(
        handler.handle_action(PlayerAction::SetVolume(Volume::Relative(-50)), &r),
        vec![EngineCall::SetVolume(0)]
    );
    assert_eq!(
        handler.handle_action(PlayerAction::SetVolume(Volume::Relative(10)), &r),
        vec![EngineCall::SetVolume(50)]
    );
}

#[test]
fn set_tracklist_ignores_a_playlist_without_songs() {
    let mut handler = handler_with(&["a", "b"]);
    handler.playlist.next();
    let calls = handler.handle_action(PlayerAction::SetTrackList(playlist(&[])), &readings(true, 0));
    assert!(calls.is_empty());
    assert_eq!(handler.playlist.position(), Some(1));
    assert_eq!(handler.playlist.tracks(), playlist(&["a", "b"]));
}

#[test]
fn set_tracklist_resets_order_and_cursor() {
    let mut handler = handler_with(&["a", "b", "c"]);
    handler.shuffle(true);
    handler.playlist.next();
    handler.handle_action(PlayerAction::SetTrackList(playlist(&["x", "y"])), &readings(true, 0));
    assert_eq!(handler.playlist.position(), Some(0));
    assert_eq!(handler.playlist.play_order(), vec![0, 1]);
    assert_eq!(handler.playlist.tracks(), playlist(&["x", "y"]));
}

#[test]
fn autoplay_needs_a_playlist() {
    let mut handler = PlayerHandler::new();
    let calls = handler.handle_action(PlayerAction::Autoplay(true), &readings(true, 0));
    assert!(calls.is_empty());
    assert!(!handler.autoplay);
}

#[test]
fn autoplay_on_plays_the_current_track() {
    let mut handler = handler_with(&["a", "b"]);
    let calls = handler.handle_action(PlayerAction::Autoplay(true), &readings(true, 0));
    assert_eq!(calls, vec![load("a")]);
    assert!(handler.autoplay);
    let calls = handler.handle_action(PlayerAction::Autoplay(false), &readings(false, 0));
    assert!(calls.is_empty());
    assert!(!handler.autoplay);
    let calls = handler.handle_action(PlayerAction::AutoplayToggle, &readings(false, 0));
    assert_eq!(calls, vec![load("a")]);
    assert!(handler.autoplay);
}

#[test]
fn strong_next_ignores_repeat() {
    let mut handler = handler_with(&["a", "b"]);
    handler.repeat = Repeat::Song;
    assert_eq!(handler.handle_action(PlayerAction::Next, &readings(false, 0)), vec![load("b")]);
    assert_eq!(handler.playlist.position(), Some(1));
    // stops at the last track
    assert_eq!(handler.handle_action(PlayerAction::Next, &readings(false, 0)), vec![load("b")]);
    assert_eq!(handler.playlist.position(), Some(1));
}

#[test]
fn strong_prev_within_five_seconds_goes_back_one_track() {
    let mut handler = handler_with(&["a", "b", "c"]);
    handler.playlist.next();
    handler.playlist.next();
    assert_eq!(handler.handle_action(PlayerAction::Prev, &readings(false, 5)), vec![load("b")]);
    assert_eq!(handler.playlist.position(), Some(1));
    assert_eq!(handler.handle_action(PlayerAction::Prev, &readings(false, 0)), vec![load("a")]);
    assert_eq!(handler.playlist.position(), Some(0));
    // already first: stays
    assert_eq!(handler.handle_action(PlayerAction::Prev, &readings(false, 2)), vec![load("a")]);
    assert_eq!(handler.playlist.position(), Some(0));
}

#[test]
fn strong_prev_past_five_seconds_restarts_the_track() {
    let mut handler = handler_with(&["a", "b", "c"]);
    handler.playlist.next();
    assert_eq!(
        handler.handle_action(PlayerAction::Prev, &readings(false, 6)),
        vec![EngineCall::SeekAbsolute(0)]
    );
    assert_eq!(handler.playlist.position(), Some(1));
}

#[test]
fn weak_next_wraps_with_repeat_playlist() {
    // playlist [A, B, C], cursor on C, repeat on the playlist, autoplay on
    let mut handler = handler_with(&["A", "B", "C"]);
    handler.playlist.next();
    handler.playlist.next();
    handler.repeat = Repeat::Playlist;
    handler.handle_action(PlayerAction::Autoplay(true), &readings(true, 0));
    handler.player.loaded(true);
    let calls = handler.update(&at_end_of_stream());
    assert_eq!(handler.playlist.position(), Some(0));
    assert_eq!(calls, vec![load("A")]);
}

#[test]
fn weak_next_with_repeat_playlist_plays_the_last_track_too() {
    let mut handler = handler_with(&["A", "B", "C"]);
    handler.playlist.next();
    handler.repeat = Repeat::Playlist;
    let calls = handler.weak_next();
    assert_eq!(handler.playlist.position(), Some(2));
    assert_eq!(calls, vec![load("C")]);
}

#[test]
fn weak_next_with_repeat_song_does_not_advance() {
    let mut handler = handler_with(&["A", "B", "C"]);
    handler.playlist.next();
    handler.repeat = Repeat::Song;
    let calls = handler.weak_next();
    assert_eq!(handler.playlist.position(), Some(1));
    assert_eq!(calls, vec![load("B")]);
}

#[test]
fn weak_next_with_repeat_off_stays_at_the_last_index() {
    let mut handler = handler_with(&["A", "B", "C"]);
    handler.playlist.next();
    let calls = handler.weak_next();
    assert_eq!(handler.playlist.position(), Some(2));
    assert_eq!(calls, vec![load("C")]);
    handler.weak_next();
    assert_eq!(handler.playlist.position(), Some(2));
}

#[test]
fn update_does_nothing_unless_playing_with_autoplay_at_end_of_stream() {
    let mut handler = handler_with(&["A", "B"]);
    // stopped
    assert!(handler.update(&at_end_of_stream()).is_empty());
    handler.player.loaded(true);
    // no autoplay
    assert!(handler.update(&at_end_of_stream()).is_empty());
    handler.autoplay = true;
    // paused
    let paused = Readings { paused: Some(true), ..at_end_of_stream() };
    assert!(handler.update(&paused).is_empty());
    // not at the end
    assert!(handler.update(&readings(false, 20)).is_empty());
    assert_eq!(handler.playlist.position(), Some(0));
    assert_eq!(handler.update(&at_end_of_stream()), vec![load("B")]);
    assert_eq!(handler.playlist.position(), Some(1));
}

#[test]
fn shuffle_toggled_on_then_off_restores_play_order() {
    let mut handler = handler_with(&["a", "b", "c", "d", "e"]);
    handler.handle_action(PlayerAction::ShuffleToggle, &readings(false, 0));
    assert!(handler.shuffle);
    handler.handle_action(PlayerAction::ShuffleToggle, &readings(false, 0));
    assert!(!handler.shuffle);
    assert_eq!(handler.playlist.play_order(), vec![0, 1, 2, 3, 4]);
}

#[test]
fn shuffle_keeps_the_cursor_index_not_the_song() {
    let mut handler = handler_with(&["a", "b", "c", "d", "e", "f", "g", "h"]);
    handler.playlist.next();
    handler.playlist.next();
    handler.handle_action(PlayerAction::Shuffle(true), &readings(false, 0));
    assert_eq!(handler.playlist.position(), Some(2));
    let order = handler.playlist.play_order();
    assert_eq!(handler.playlist.get_current(), Some(order[2]));
}

#[test]
fn handle_request_reports_on_actions_and_on_queries_for_the_player() {
    let mut handler = handler_with(&["a"]);
    let r = readings(false, 0);
    let reaction = handler.handle_request(Request::PlayerAction(PlayerAction::Stop), &r);
    assert_eq!(reaction.calls, vec![EngineCall::Stop]);
    assert!(reaction.send_info);
    let reaction = handler.handle_request(Request::Get(GetRequest::PlayerInfo), &r);
    assert!(reaction.calls.is_empty());
    assert!(reaction.send_info);
    let reaction = handler.handle_request(Request::Get(GetRequest::PlaylistList), &r);
    assert!(reaction.calls.is_empty());
    assert!(!reaction.send_info);
    let reaction = handler.handle_request(Request::Command("devices list".to_string()), &r);
    assert!(!reaction.send_info);
    let change = SetRequest::AddSongToPlaylist { song: "a".to_string(), playlist: "p".to_string() };
    let reaction = handler.handle_request(Request::Modify(change), &r);
    assert!(reaction.calls.is_empty());
    assert!(!reaction.send_info);
}

#[test]
fn send_info_is_a_full_snapshot() {
    let mut handler = handler_with(&["a", "b"]);
    handler.playlist.next();
    handler.player.loaded(true);
    handler.repeat = Repeat::Playlist;
    handler.autoplay = true;
    let info = handler.send_info(&readings(false, 17));
    assert_eq!(info.playback, Playback::Play);
    assert_eq!(info.song_info, Some(song("b")));
    assert_eq!(info.tracklist, playlist(&["a", "b"]));
    assert_eq!(info.track_index, Some(1));
    assert!(!info.shuffled);
    assert!(info.autoplay);
    assert_eq!(info.repeat, Repeat::Playlist);
    assert_eq!(info.volume, 40);
    assert_eq!(info.position, 17);
    assert!(info.can_seek);
}

#[test]
fn send_info_without_playlist() {
    let handler = PlayerHandler::new();
    let info = handler.send_info(&readings(true, 0));
    assert_eq!(info.playback, Playback::Stop);
    assert_eq!(info.song_info, None);
    assert_eq!(info.tracklist, PlaylistInfo::default());
    assert_eq!(info.track_index, None);
}

#[test]
fn player_handlers_keep_their_invariant() {
    let mut handler = handler_with(&["a", "b", "c"]);
    assert!(handler.is_well_formed());
    handler.handle_action(PlayerAction::Shuffle(true), &readings(false, 0));
    handler.handle_action(PlayerAction::Next, &readings(false, 0));
    assert!(handler.is_well_formed());
    assert!(PlayerHandler::new().is_well_formed());
}
