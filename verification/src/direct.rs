//! The player as the panel front end drives it: one engine, with a playlist
//! of its own, and no backend in between.
use crate::engine::{
    calls_view, load_argument, loop_settings, stepped_volume, EngineCall, EngineCallView, Readings,
};
use crate::panels::State as Route;
use crate::text::{clone_texts, text_or_empty, texts_view};
use vstd::prelude::*;

verus! {

/// What happens at the end of a track, or of the playlist.
#[derive(Debug, Clone, Copy, PartialEq, Eq, PartialOrd, Ord, Structural)]
pub enum Repeat {
    Off,
    Song,
    Playlist,
}

impl Repeat {
    /// The mode as the protocol names it.
    pub open spec fn as_protocol(self) -> crate::protocol::Repeat {
        match self {
            Repeat::Off => crate::protocol::Repeat::Off,
            Repeat::Song => crate::protocol::Repeat::Song,
            Repeat::Playlist => crate::protocol::Repeat::Playlist,
        }
    }

    /// The mode that follows `self` in the cycle Off, Playlist, Song, Off.
    pub open spec fn cycled(self) -> Repeat {
        match self {
            Repeat::Off => Repeat::Playlist,
            Repeat::Playlist => Repeat::Song,
            Repeat::Song => Repeat::Off,
        }
    }

    /// The text shown for the mode.
    pub open spec fn label_spec(self) -> Seq<char> {
        match self {
            Repeat::Off => "no"@,
            Repeat::Song => "song"@,
            Repeat::Playlist => "playlist"@,
        }
    }

    /// The text shown for the mode.
    pub fn label(&self) -> (text: String)
        ensures
            text@ == self.label_spec(),
    {
        match self {
            Repeat::Off => "no".to_owned(),
            Repeat::Song => "song".to_owned(),
            Repeat::Playlist => "playlist".to_owned(),
        }
    }

    /// The mode as the protocol names it.
    pub fn to_protocol(self) -> (r: crate::protocol::Repeat)
        ensures
            r == self.as_protocol(),
    {
        match self {
            Repeat::Off => crate::protocol::Repeat::Off,
            Repeat::Song => crate::protocol::Repeat::Song,
            Repeat::Playlist => crate::protocol::Repeat::Playlist,
        }
    }
}

/// The cycle of this player is that of the protocol, and has three steps.
pub proof fn lemma_cycle_agrees_with_protocol(repeat: Repeat)
    ensures
        repeat.cycled().as_protocol() == repeat.as_protocol().cycled(),
        repeat.cycled().cycled().cycled() == repeat,
{
}

/// Whether the player plays, is paused or is stopped.
#[derive(Debug, Clone, Copy, PartialEq, Eq, Structural)]
pub enum PlaybackStatus {
    Playing,
    Paused,
    Stopped,
}

impl PlaybackStatus {
    /// The text shown for the status.
    pub open spec fn label_spec(self) -> Seq<char> {
        match self {
            PlaybackStatus::Stopped => "Stopped"@,
            PlaybackStatus::Paused => "Paused"@,
            PlaybackStatus::Playing => "Playing"@,
        }
    }

    /// The text shown for the status.
    pub fn label(&self) -> (text: String)
        ensures
            text@ == self.label_spec(),
    {
        match self {
            PlaybackStatus::Stopped => "Stopped".to_owned(),
            PlaybackStatus::Paused => "Paused".to_owned(),
            PlaybackStatus::Playing => "Playing".to_owned(),
        }
    }
}

/// The state of the player at one moment.
#[derive(Debug, Clone, PartialEq, Eq)]
pub struct State {
    /// Length of the loaded media, in seconds.
    pub duration: i64,
    /// Position in the loaded media, in seconds.
    pub time_pos: i64,
    pub volume: i64,
    pub title: String,
    pub path: String,
    pub repeat: Repeat,
    pub playpause: PlaybackStatus,
    pub shuffled: bool,
}

/// `x`, or zero where there is none.
pub open spec fn or_zero(x: Option<i64>) -> i64 {
    match x {
        Some(v) => v,
        None => 0,
    }
}

/// The player.
#[derive(Debug)]
pub struct Player {
    pub shuffled: bool,
    /// A playlist is loaded into the engine.
    pub in_playlist: bool,
    /// Nothing has been loaded since the player was made or stopped.
    pub stopped: bool,
    pub repeat: Repeat,
    /// Where in the panels what plays was picked.
    pub route: Route,
}

impl Player {
    /// `self` is `before` but for the stop flag.
    pub open spec fn same_but_stopped(&self, before: &Player) -> bool {
        &&& self.shuffled == before.shuffled
        &&& self.in_playlist == before.in_playlist
        &&& self.repeat == before.repeat
        &&& self.route == before.route
    }

    /// A player that has not played anything yet.
    pub fn new() -> (r: Player)
        ensures
            !r.shuffled,
            !r.in_playlist,
            r.stopped,
            r.repeat == Repeat::Off,
            r.route == Route::empty(),
    {
        Player {
            shuffled: false,
            in_playlist: false,
            stopped: true,
            route: Route::new(),
            repeat: Repeat::Off,
        }
    }

    /// The playback status shown for the player.
    pub open spec fn playback_status(&self, paused: bool) -> PlaybackStatus {
        if self.stopped {
            PlaybackStatus::Stopped
        } else if paused {
            PlaybackStatus::Paused
        } else {
            PlaybackStatus::Playing
        }
    }

    /// The state of the player, from what was read from the engine. A
    /// reading that failed counts as zero, or as the empty text; a failed
    /// reading of the pause flag counts as paused.
    pub fn get_state(&self, readings: &Readings, title: &Option<String>, path: &Option<String>) -> (r:
        State)
        ensures
            r.duration == or_zero(readings.duration),
            r.time_pos == or_zero(readings.time_pos),
            r.volume == or_zero(readings.volume),
            r.title@ == text_or_empty(*title),
            r.path@ == text_or_empty(*path),
            r.repeat == self.repeat,
            r.playpause == self.playback_status(readings.paused_spec()),
            r.shuffled == self.shuffled,
    {
        State {
            duration: match readings.duration {
                Some(d) => d,
                None => 0,
            },
            time_pos: match readings.time_pos {
                Some(t) => t,
                None => 0,
            },
            volume: match readings.volume {
                Some(v) => v,
                None => 0,
            },
            title: match title {
                Some(t) => t.clone(),
                None => String::new(),
            },
            path: match path {
                Some(p) => p.clone(),
                None => String::new(),
            },
            repeat: self.repeat,
            playpause: self.get_playback_status(readings),
            shuffled: self.shuffled,
        }
    }

    /// The playback status shown for the player.
    pub fn get_playback_status(&self, readings: &Readings) -> (r: PlaybackStatus)
        ensures
            r == self.playback_status(readings.paused_spec()),
    {
        if self.is_stopped() {
            PlaybackStatus::Stopped
        } else if readings.is_paused() {
            PlaybackStatus::Paused
        } else {
            PlaybackStatus::Playing
        }
    }

    /// The call that flips the pause flag of the engine.
    pub fn playpause(&self, readings: &Readings) -> (r: EngineCall)
        ensures
            r@ == if readings.paused_spec() {
                EngineCallView::Unpause
            } else {
                EngineCallView::Pause
            },
    {
        if readings.is_paused() {
            EngineCall::Unpause
        } else {
            EngineCall::Pause
        }
    }

    /// Plays `url`, which was picked at `route`: the call that loads it.
    pub fn play(&mut self, url: &str, route: Route) -> (r: EngineCall)
        ensures
            r@ == EngineCallView::Load(load_argument(url@)),
            final(self).route == route,
            final(self).shuffled == old(self).shuffled,
            final(self).in_playlist == old(self).in_playlist,
            final(self).repeat == old(self).repeat,
            final(self).stopped == old(self).stopped,
    {
        self.route = route;
        let quoted: String = "\"".to_owned().concat(url).concat("\"");
        proof {
            reveal_strlit("\"");
            assert("\""@ =~= seq!['"']);
        }
        EngineCall::Load(quoted)
    }

    /// Records how a load went: a player that loaded something is no longer
    /// stopped.
    pub fn loaded(&mut self, ok: bool)
        ensures
            final(self).stopped == (old(self).stopped && !ok),
            final(self).same_but_stopped(old(self)),
    {
        if ok {
            self.stopped = false;
        }
    }

    /// The volume to start a change from.
    pub fn get_volume(&self, readings: &Readings) -> (r: i64)
        ensures
            r == readings.volume_spec(),
    {
        readings.get_volume()
    }

    /// The repeat mode.
    pub fn get_repeat(&self) -> (r: Repeat)
        ensures
            r == self.repeat,
    {
        self.repeat
    }

    /// The call that changes the volume by `dv`, kept within 0 and 100.
    pub fn incr_volume(&self, readings: &Readings, dv: i64) -> (r: EngineCall)
        ensures
            r@ == EngineCallView::SetVolume(
                stepped_volume(readings.volume_spec() as int, dv as int) as i64,
            ),
    {
        let sum: i128 = readings.get_volume() as i128 + dv as i128;
        let target: i64 = if sum > 100 {
            100
        } else if sum < 0 {
            0
        } else {
            sum as i64
        };
        EngineCall::SetVolume(target)
    }

    /// Shuffles the playlist if it is in order, and puts it back in order if
    /// it is shuffled. Without a playlist nothing happens.
    pub fn shuffle(&mut self) -> (r: Option<EngineCall>)
        ensures
            final(self).in_playlist == old(self).in_playlist,
            final(self).stopped == old(self).stopped,
            final(self).repeat == old(self).repeat,
            final(self).route == old(self).route,
            final(self).shuffled == (old(self).in_playlist != old(self).shuffled),
            match r {
                Some(call) => old(self).in_playlist && call@ == if old(self).shuffled {
                    EngineCallView::Unshuffle
                } else {
                    EngineCallView::Shuffle
                },
                None => !old(self).in_playlist,
            },
    {
        if !self.in_playlist {
            return None;
        }
        let call = if self.shuffled {
            EngineCall::Unshuffle
        } else {
            EngineCall::Shuffle
        };
        self.shuffled = !self.shuffled;
        Some(call)
    }

    /// Toggles the playing of a whole playlist: the player stops and the
    /// playlist of the engine is emptied; unless a playlist was playing,
    /// `playlist` is then loaded and played.
    pub fn set_auto(&mut self, playlist: &Vec<String>, route: Route) -> (calls: Vec<EngineCall>)
        ensures
            final(self).in_playlist == !old(self).in_playlist,
            final(self).stopped == old(self).in_playlist,
            !final(self).shuffled,
            final(self).repeat == old(self).repeat,
            final(self).route == route,
            calls_view(calls@) == if old(self).in_playlist {
                seq![EngineCallView::Stop, EngineCallView::ClearPlaylist]
            } else {
                seq![
                    EngineCallView::Stop,
                    EngineCallView::ClearPlaylist,
                    EngineCallView::LoadFiles(texts_view(playlist@)),
                ]
            },
    {
        let mut calls: Vec<EngineCall> = Vec::new();
        calls.push(self.stop());
        calls.push(EngineCall::ClearPlaylist);
        if !self.in_playlist {
            let files = clone_texts(playlist);
            assert(Seq::new(files@.len(), |i: int| files@[i]@) =~= texts_view(playlist@));
            calls.push(EngineCall::LoadFiles(files));
            self.stopped = false;
        }
        self.in_playlist = !self.in_playlist;
        self.shuffled = false;
        self.route = route;
        assert(calls_view(calls@) =~= if old(self).in_playlist {
            seq![EngineCallView::Stop, EngineCallView::ClearPlaylist]
        } else {
            seq![
                EngineCallView::Stop,
                EngineCallView::ClearPlaylist,
                EngineCallView::LoadFiles(texts_view(playlist@)),
            ]
        });
        calls
    }

    /// The call that goes to the next entry of the playlist.
    pub fn next(&self) -> (r: EngineCall)
        ensures
            r@ == EngineCallView::PlaylistNext,
    {
        EngineCall::PlaylistNext
    }

    /// The call that goes to the previous entry of the playlist.
    pub fn prev(&self) -> (r: EngineCall)
        ensures
            r@ == EngineCallView::PlaylistPrev,
    {
        EngineCall::PlaylistPrev
    }

    /// Whether the playlist is shuffled.
    pub fn is_shuffled(&self) -> (r: bool)
        ensures
            r == self.shuffled,
    {
        self.shuffled
    }

    /// Whether a playlist is loaded into the engine.
    pub fn is_in_playlist(&self) -> (r: bool)
        ensures
            r == self.in_playlist,
    {
        self.in_playlist
    }

    /// Stops the player.
    pub fn stop(&mut self) -> (r: EngineCall)
        ensures
            final(self).stopped,
            final(self).same_but_stopped(old(self)),
            r@ == EngineCallView::Stop,
    {
        self.stopped = true;
        EngineCall::Stop
    }

    /// Whether nothing has been loaded since the player was made or stopped.
    pub fn is_stopped(&self) -> (r: bool)
        ensures
            r == self.stopped,
    {
        self.stopped
    }

    /// The call that seeks by `dt` seconds from the current position.
    pub fn seek_relative(&self, dt: i32) -> (r: EngineCall)
        ensures
            r@ == EngineCallView::SeekRelative(dt),
    {
        EngineCall::SeekRelative(dt)
    }

    /// The call that seeks to `percent` percent of the media.
    pub fn seek_percent(&self, percent: usize) -> (r: EngineCall)
        ensures
            r@ == EngineCallView::SeekPercent(percent),
    {
        EngineCall::SeekPercent(percent)
    }

    /// Steps the repeat mode through Off, Playlist, Song and back to Off.
    pub fn cycle_repeat(&mut self) -> (r: EngineCall)
        ensures
            final(self).repeat == old(self).repeat.cycled(),
            final(self).shuffled == old(self).shuffled,
            final(self).in_playlist == old(self).in_playlist,
            final(self).stopped == old(self).stopped,
            final(self).route == old(self).route,
            r@ == EngineCallView::SetLoop(loop_settings(final(self).repeat.as_protocol())),
    {
        self.repeat = match self.repeat {
            Repeat::Off => Repeat::Playlist,
            Repeat::Playlist => Repeat::Song,
            Repeat::Song => Repeat::Off,
        };
        crate::engine::Player::new().set_repeat(self.repeat.to_protocol())
    }

    /// The calls that bring the pause flag of the engine to `val`.
    pub fn set_pause_val(&self, readings: &Readings, val: bool) -> (calls: Vec<EngineCall>)
        ensures
            calls_view(calls@) == crate::player::pause_calls(val, readings.paused_spec()),
    {
        if readings.is_paused() != val {
            crate::engine::one_call(self.playpause(readings))
        } else {
            crate::engine::no_call()
        }
    }

    /// What plays, as a song: it is titled as the engine says, and its
    /// length is what the engine gives, taken as milliseconds.
    pub fn get_playing_song_info(&self, state: &State) -> (r: crate::sources::Song)
        ensures
            r.title@ == state.title@,
            r.artists@.len() == 0,
            r.duration_millis == state.duration as u64,
    {
        crate::sources::Song {
            title: state.title.clone(),
            artists: Vec::new(),
            duration_millis: #[verifier::truncate]
            (state.duration as u64),
        }
    }

    /// The calls that carry out what is asked of the player. `url` is the
    /// address of the song that is selected, and `urls` are those of the
    /// playlist that is; `route` is where they are selected.
    pub fn player_ctrl(
        &mut self,
        action: crate::panels::PlayerCtrl,
        readings: &Readings,
        url: &str,
        urls: &Vec<String>,
        route: Route,
    ) -> (calls: Vec<EngineCall>)
        ensures
            match action {
                crate::panels::PlayerCtrl::Pause => {
                    &&& *final(self) == *old(self)
                    &&& calls_view(calls@) == seq![
                        if readings.paused_spec() {
                            EngineCallView::Unpause
                        } else {
                            EngineCallView::Pause
                        },
                    ]
                },
                crate::panels::PlayerCtrl::Play => {
                    &&& final(self).route == route
                    &&& final(self).repeat == old(self).repeat
                    &&& final(self).shuffled == old(self).shuffled
                    &&& final(self).in_playlist == old(self).in_playlist
                    &&& final(self).stopped == old(self).stopped
                    &&& calls_view(calls@) == seq![EngineCallView::Load(load_argument(url@))]
                },
                crate::panels::PlayerCtrl::Shuffle => {
                    &&& final(self).shuffled == (old(self).in_playlist != old(self).shuffled)
                    &&& final(self).repeat == old(self).repeat
                    &&& final(self).in_playlist == old(self).in_playlist
                    &&& calls_view(calls@) == if !old(self).in_playlist {
                        Seq::empty()
                    } else if old(self).shuffled {
                        seq![EngineCallView::Unshuffle]
                    } else {
                        seq![EngineCallView::Shuffle]
                    }
                },
                crate::panels::PlayerCtrl::Repeat => {
                    &&& final(self).repeat == old(self).repeat.cycled()
                    &&& final(self).shuffled == old(self).shuffled
                    &&& final(self).in_playlist == old(self).in_playlist
                    &&& calls_view(calls@) == seq![
                        EngineCallView::SetLoop(loop_settings(final(self).repeat.as_protocol())),
                    ]
                },
                crate::panels::PlayerCtrl::Auto => {
                    &&& final(self).in_playlist == !old(self).in_playlist
                    &&& !final(self).shuffled
                    &&& final(self).route == route
                    &&& calls_view(calls@) == if old(self).in_playlist {
                        seq![EngineCallView::Stop, EngineCallView::ClearPlaylist]
                    } else {
                        seq![
                            EngineCallView::Stop,
                            EngineCallView::ClearPlaylist,
                            EngineCallView::LoadFiles(texts_view(urls@)),
                        ]
                    }
                },
                crate::panels::PlayerCtrl::SeekForwardRel => {
                    &&& *final(self) == *old(self)
                    &&& calls_view(calls@) == seq![EngineCallView::SeekRelative(5i32)]
                },
                crate::panels::PlayerCtrl::SeekBackwardRel => {
                    &&& *final(self) == *old(self)
                    &&& calls_view(calls@) == seq![EngineCallView::SeekRelative(-5i32)]
                },
                crate::panels::PlayerCtrl::SeekPercent(n) => {
                    &&& *final(self) == *old(self)
                    &&& calls_view(calls@) == seq![EngineCallView::SeekPercent(n as usize)]
                },
                crate::panels::PlayerCtrl::VolumeUp => {
                    &&& *final(self) == *old(self)
                    &&& calls_view(calls@) == seq![
                        EngineCallView::SetVolume(
                            stepped_volume(readings.volume_spec() as int, 5) as i64,
                        ),
                    ]
                },
                crate::panels::PlayerCtrl::VolumeDown => {
                    &&& *final(self) == *old(self)
                    &&& calls_view(calls@) == seq![
                        EngineCallView::SetVolume(
                            stepped_volume(readings.volume_spec() as int, -5) as i64,
                        ),
                    ]
                },
                crate::panels::PlayerCtrl::Prev => {
                    &&& *final(self) == *old(self)
                    &&& calls_view(calls@) == seq![EngineCallView::PlaylistPrev]
                },
                crate::panels::PlayerCtrl::Next => {
                    &&& *final(self) == *old(self)
                    &&& calls_view(calls@) == seq![EngineCallView::PlaylistNext]
                },
            },
    {
        match action {
            crate::panels::PlayerCtrl::Pause => crate::engine::one_call(self.playpause(readings)),
            crate::panels::PlayerCtrl::Play => crate::engine::one_call(self.play(url, route)),
            crate::panels::PlayerCtrl::Shuffle => match self.shuffle() {
                Some(call) => crate::engine::one_call(call),
                None => crate::engine::no_call(),
            },
            crate::panels::PlayerCtrl::Repeat => crate::engine::one_call(self.cycle_repeat()),
            crate::panels::PlayerCtrl::Auto => self.set_auto(urls, route),
            crate::panels::PlayerCtrl::SeekForwardRel => crate::engine::one_call(
                self.seek_relative(5),
            ),
            crate::panels::PlayerCtrl::SeekBackwardRel => crate::engine::one_call(
                self.seek_relative(-5),
            ),
            crate::panels::PlayerCtrl::SeekPercent(n) => crate::engine::one_call(
                self.seek_percent(n as usize),
            ),
            crate::panels::PlayerCtrl::VolumeUp => crate::engine::one_call(
                self.incr_volume(readings, 5),
            ),
            crate::panels::PlayerCtrl::VolumeDown => crate::engine::one_call(
                self.incr_volume(readings, -5),
            ),
            crate::panels::PlayerCtrl::Prev => crate::engine::one_call(self.prev()),
            crate::panels::PlayerCtrl::Next => crate::engine::one_call(self.next()),
        }
    }
}

} // verus!
