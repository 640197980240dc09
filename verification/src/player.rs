//! The player state machine: what a backend that plays media does with each
//! playback intent. It decides and keeps its own state; the calls it returns
//! are for the caller to make on the engine.
use crate::engine::{
    calls_view, load_argument, loop_settings, no_call, one_call, paused_after, stepped_volume,
    EngineCall, EngineCallView, Player, Readings,
};
use crate::playlist::{identity_order, is_play_order, stepped_back, stepped_forward, PlaylistHandler};
use crate::protocol::{
    clone_song_option, song_option_view, GetRequest, Playback, PlayerAction, PlayerInfo,
    PlaylistInfo, Repeat, Request, SeekMode, SongInfo, Volume,
};
use crate::seek::{saturated, seek_target, target_position};
use vstd::prelude::*;

verus! {

/// The calls that bring the pause flag from `paused` to `target`.
pub open spec fn pause_calls(target: bool, paused: bool) -> Seq<EngineCallView> {
    if target == paused {
        Seq::empty()
    } else if paused {
        seq![EngineCallView::Unpause]
    } else {
        seq![EngineCallView::Pause]
    }
}

/// The cursor after the end of a track was reached. With repeat on `Song`
/// it stays; with repeat on `Playlist` it goes from the last position to the
/// first; otherwise it goes one step further and stops at the last position.
pub open spec fn weak_next_cursor(cursor: Option<usize>, count: nat, repeat: Repeat) -> Option<
    usize,
> {
    match cursor {
        None => None,
        Some(c) => match repeat {
            Repeat::Song => Some(c),
            Repeat::Playlist => if c + 1 == count {
                Some(0usize)
            } else {
                stepped_forward(cursor, count)
            },
            Repeat::Off => stepped_forward(cursor, count),
        },
    }
}

/// Asking twice for the same pause state leaves the engine as asking once:
/// the first request brings the pause flag to `target`, and the second finds
/// nothing to do.
pub proof fn lemma_play_pause_is_idempotent(target: bool, paused: bool)
    ensures
        ({
            let once = paused_after(paused, pause_calls(target, paused));
            let twice = paused_after(once, pause_calls(target, once));
            &&& once == target
            &&& pause_calls(target, once) == Seq::<EngineCallView>::empty()
            &&& twice == once
        }),
{
    let first = pause_calls(target, paused);
    if target != paused {
        assert(first.len() == 1);
        assert(first.last() == first[0]);
    }
    let once = paused_after(paused, first);
    assert(once == target);
    assert(pause_calls(target, once) =~= Seq::<EngineCallView>::empty());
}

/// At the end of the last track the cursor goes to the first position with
/// repeat on `Playlist`, and stays where it is with repeat on `Song` or `Off`.
pub proof fn lemma_weak_next_at_last_track(count: nat, repeat: Repeat)
    requires
        0 < count <= usize::MAX,
    ensures
        weak_next_cursor(Some((count - 1) as usize), count, repeat) == match repeat {
            Repeat::Playlist => Some(0usize),
            Repeat::Song => Some((count - 1) as usize),
            Repeat::Off => Some((count - 1) as usize),
        },
{
}

/// Before the last track the cursor goes one step further, unless repeat is
/// on `Song`; it never leaves the play order.
pub proof fn lemma_weak_next_stays_in_order(cursor: usize, count: nat, repeat: Repeat)
    requires
        cursor < count,
    ensures
        weak_next_cursor(Some(cursor), count, repeat) is Some,
        weak_next_cursor(Some(cursor), count, repeat)->0 < count,
        cursor + 1 < count && repeat != Repeat::Song ==> weak_next_cursor(
            Some(cursor),
            count,
            repeat,
        ) == Some((cursor + 1) as usize),
{
}

/// The volume level that a change asks for, within 0 and 100.
pub open spec fn volume_target(current: int, volume: Volume) -> int {
    match volume {
        Volume::Absolute(target) => if target > 100 {
            100
        } else {
            target as int
        },
        Volume::Relative(dv) => stepped_volume(current, dv as int),
    }
}

/// `x`, or the largest `i64` where `x` is beyond it.
pub open spec fn within_i64(x: u64) -> i64 {
    if x > i64::MAX {
        i64::MAX
    } else {
        x as i64
    }
}

/// The calls that carry out a seek by `dt` in `mode`.
pub open spec fn seek_calls(readings: Readings, dt: i64, mode: SeekMode) -> Seq<EngineCallView> {
    match mode {
        SeekMode::Absolute => seq![EngineCallView::SeekAbsolute(dt)],
        SeekMode::Relative => seq![EngineCallView::SeekRelative(dt as i32)],
        SeekMode::AbsolutePercent => seq![EngineCallView::SeekPercent(dt as usize)],
        SeekMode::RelativePercent => match seek_target(
            mode,
            dt as int,
            readings.position_spec() as nat,
            readings.duration_spec() as nat,
        ) {
            Some(t) => seq![EngineCallView::SeekAbsolute(within_i64(saturated(t)))],
            None => Seq::empty(),
        },
    }
}

/// What a handler decided on a request.
pub struct Reaction {
    /// The calls to make on the engine, in order.
    pub calls: Vec<EngineCall>,
    /// Whether a snapshot of the player is to be sent back afterwards.
    pub send_info: bool,
}

/// The playback state of one backend.
pub struct PlayerHandler {
    pub player: Player,
    pub playlist: PlaylistHandler,
    /// A track played outside of any playlist.
    pub current_track: Option<SongInfo>,
    pub shuffle: bool,
    pub autoplay: bool,
    pub repeat: Repeat,
}

impl PlayerHandler {
    /// The invariant of the type.
    pub open spec fn well_formed(&self) -> bool {
        self.playlist.well_formed()
    }

    /// Whether the invariant of the type holds.
    pub fn is_well_formed(&self) -> (r: bool)
        ensures
            r == self.well_formed(),
    {
        self.playlist.is_well_formed()
    }

    /// `self` has the settings of `before`.
    pub open spec fn same_settings(&self, before: &PlayerHandler) -> bool {
        &&& self.player == before.player
        &&& self.current_track == before.current_track
        &&& self.shuffle == before.shuffle
        &&& self.autoplay == before.autoplay
        &&& self.repeat == before.repeat
    }

    /// `self` has the tracks and the play order of `before`.
    pub open spec fn same_order(&self, before: &PlayerHandler) -> bool {
        &&& self.playlist.same_tracks(&before.playlist)
        &&& self.playlist.order() == before.playlist.order()
    }

    /// `self` is in every respect as `before`.
    pub open spec fn unchanged(&self, before: &PlayerHandler) -> bool {
        &&& self.same_settings(before)
        &&& self.same_order(before)
        &&& self.playlist.cursor() == before.playlist.cursor()
    }

    /// The calls that play the track under the cursor: one load, or nothing
    /// where no playlist is loaded.
    pub open spec fn play_calls(&self) -> Seq<EngineCallView> {
        if self.playlist.loaded() {
            seq![EngineCallView::Load(load_argument(self.playlist.current_song_view().url))]
        } else {
            Seq::empty()
        }
    }

    /// `self` is `before` with the play order shuffled or restored.
    pub open spec fn after_shuffle(&self, before: &PlayerHandler, target: bool) -> bool {
        &&& self.player == before.player
        &&& self.current_track == before.current_track
        &&& self.autoplay == before.autoplay
        &&& self.repeat == before.repeat
        &&& self.shuffle == target
        &&& self.playlist.same_tracks(&before.playlist)
        &&& self.playlist.cursor() == before.playlist.cursor()
        &&& is_play_order(self.playlist.order(), self.playlist.count())
        &&& target ==> self.playlist.order().to_multiset() == before.playlist.order().to_multiset()
        &&& !target ==> self.playlist.order() == identity_order(before.playlist.count())
    }

    /// `self` is `before` with autoplay set to `target`, which takes a
    /// loaded playlist.
    pub open spec fn after_autoplay(
        &self,
        before: &PlayerHandler,
        target: bool,
        calls: Seq<EngineCallView>,
    ) -> bool {
        &&& self.player == before.player
        &&& self.current_track == before.current_track
        &&& self.shuffle == before.shuffle
        &&& self.repeat == before.repeat
        &&& self.same_order(before)
        &&& self.playlist.cursor() == before.playlist.cursor()
        &&& self.autoplay == (target && before.playlist.loaded())
        &&& calls == if target {
            before.play_calls()
        } else {
            Seq::empty()
        }
    }

    /// `self` is `before` with the cursor at `cursor`, and `calls` play the
    /// track there.
    pub open spec fn moved_to(
        &self,
        before: &PlayerHandler,
        cursor: Option<usize>,
        calls: Seq<EngineCallView>,
    ) -> bool {
        &&& self.same_settings(before)
        &&& self.same_order(before)
        &&& self.playlist.cursor() == cursor
        &&& calls == self.play_calls()
    }

    /// `self` is `before` after a step back: to the track before where the
    /// current one has played for at most 5 seconds, to the start of the
    /// current one otherwise.
    pub open spec fn after_strong_prev(
        &self,
        before: &PlayerHandler,
        readings: Readings,
        calls: Seq<EngineCallView>,
    ) -> bool {
        if readings.position_spec() <= 5 {
            self.moved_to(before, stepped_back(before.playlist.cursor()), calls)
        } else {
            &&& self.unchanged(before)
            &&& calls == seq![EngineCallView::SeekAbsolute(0)]
        }
    }

    /// `self` is `before` with `tracks` loaded, unless `tracks` is empty.
    pub open spec fn after_set_tracklist(
        &self,
        before: &PlayerHandler,
        tracks: PlaylistInfo,
    ) -> bool {
        &&& self.same_settings(before)
        &&& if tracks.songs@.len() == 0 {
            self.playlist == before.playlist
        } else {
            &&& self.playlist.loaded()
            &&& self.playlist.tracklist() == tracks@
            &&& self.playlist.count() == tracks.songs@.len()
            &&& self.playlist.order() == identity_order(tracks.songs@.len())
            &&& self.playlist.cursor() == Some(0usize)
        }
    }

    /// `self` is `before` with the repeat mode `repeat`.
    pub open spec fn after_set_repeat(
        &self,
        before: &PlayerHandler,
        repeat: Repeat,
        calls: Seq<EngineCallView>,
    ) -> bool {
        &&& self.player == before.player
        &&& self.current_track == before.current_track
        &&& self.shuffle == before.shuffle
        &&& self.autoplay == before.autoplay
        &&& self.same_order(before)
        &&& self.playlist.cursor() == before.playlist.cursor()
        &&& self.repeat == repeat
        &&& calls == seq![EngineCallView::SetLoop(loop_settings(repeat))]
    }

    /// `self` is `before` stopped.
    pub open spec fn after_stop(&self, before: &PlayerHandler, calls: Seq<EngineCallView>) -> bool {
        &&& self.player.stopped
        &&& self.current_track == before.current_track
        &&& self.shuffle == before.shuffle
        &&& self.autoplay == before.autoplay
        &&& self.repeat == before.repeat
        &&& self.same_order(before)
        &&& self.playlist.cursor() == before.playlist.cursor()
        &&& calls == seq![EngineCallView::Stop]
    }

    /// `self` and `calls` are what `action` makes of `before`, with the
    /// engine as `readings` show it.
    pub open spec fn acted(
        &self,
        before: &PlayerHandler,
        action: PlayerAction,
        readings: Readings,
        calls: Seq<EngineCallView>,
    ) -> bool {
        match action {
            PlayerAction::PlayPause(target) => {
                &&& self.unchanged(before)
                &&& calls == pause_calls(target, readings.paused_spec())
            },
            PlayerAction::PlayPauseToggle => {
                &&& self.unchanged(before)
                &&& calls == pause_calls(!readings.paused_spec(), readings.paused_spec())
            },
            PlayerAction::Stop => self.after_stop(before, calls),
            PlayerAction::Shuffle(target) => {
                &&& self.after_shuffle(before, target)
                &&& calls == Seq::<EngineCallView>::empty()
            },
            PlayerAction::ShuffleToggle => {
                &&& self.after_shuffle(before, !before.shuffle)
                &&& calls == Seq::<EngineCallView>::empty()
            },
            PlayerAction::Autoplay(target) => self.after_autoplay(before, target, calls),
            PlayerAction::AutoplayToggle => self.after_autoplay(before, !before.autoplay, calls),
            PlayerAction::Seek { dt, mode } => {
                &&& self.unchanged(before)
                &&& calls == seek_calls(readings, dt, mode)
            },
            PlayerAction::Prev => self.after_strong_prev(before, readings, calls),
            PlayerAction::Next => self.moved_to(
                before,
                stepped_forward(before.playlist.cursor(), before.playlist.count()),
                calls,
            ),
            PlayerAction::SetVolume(volume) => {
                &&& self.unchanged(before)
                &&& calls == seq![
                    EngineCallView::SetVolume(
                        volume_target(readings.volume_spec() as int, volume) as i64,
                    ),
                ]
            },
            PlayerAction::SetTrackList(tracks) => {
                &&& self.after_set_tracklist(before, tracks)
                &&& calls == Seq::<EngineCallView>::empty()
            },
            PlayerAction::SetRepeat(repeat) => self.after_set_repeat(before, repeat, calls),
            PlayerAction::CycleRepeat => self.after_set_repeat(
                before,
                before.repeat.cycled(),
                calls,
            ),
        }
    }

    /// A handler that has nothing loaded and plays nothing.
    pub fn new() -> (r: PlayerHandler)
        ensures
            r.well_formed(),
            r.player.stopped,
            !r.playlist.loaded(),
            r.current_track is None,
            !r.shuffle,
            !r.autoplay,
            r.repeat == Repeat::Off,
    {
        PlayerHandler {
            player: Player::new(),
            playlist: PlaylistHandler::new(),
            current_track: None,
            shuffle: false,
            autoplay: false,
            repeat: Repeat::Off,
        }
    }

    /// The calls that play the track under the cursor.
    pub fn play_playlist(&self) -> (calls: Vec<EngineCall>)
        requires
            self.well_formed(),
        ensures
            calls_view(calls@) == self.play_calls(),
    {
        match self.playlist.current_song() {
            Some(song) => one_call(self.player.play(song.url.as_str())),
            None => no_call(),
        }
    }

    /// Shuffles the play order, or restores the listed order.
    pub fn shuffle(&mut self, target: bool)
        requires
            old(self).well_formed(),
        ensures
            final(self).well_formed(),
            final(self).after_shuffle(old(self), target),
    {
        proof {
            self.playlist.lemma_well_formed();
        }
        if target {
            self.playlist.shuffle();
        } else {
            self.playlist.unshuffle();
            proof {
                self.playlist.lemma_well_formed();
            }
        }
        self.shuffle = target;
    }

    /// Shuffles if the order is the listed one, restores it otherwise.
    pub fn shuffle_toggle(&mut self)
        requires
            old(self).well_formed(),
        ensures
            final(self).well_formed(),
            final(self).after_shuffle(old(self), !old(self).shuffle),
    {
        let target: bool = !self.shuffle;
        self.shuffle(target)
    }

    /// Turns autoplay on or off. Turning it on starts the track under the
    /// cursor. Without a playlist autoplay is off.
    pub fn autoplay(&mut self, target: bool) -> (calls: Vec<EngineCall>)
        requires
            old(self).well_formed(),
        ensures
            final(self).well_formed(),
            final(self).after_autoplay(old(self), target, calls_view(calls@)),
    {
        if self.playlist.is_some() {
            self.autoplay = target;
            if target {
                self.play_playlist()
            } else {
                no_call()
            }
        } else {
            self.autoplay = false;
            no_call()
        }
    }

    /// Turns autoplay on if it is off, and off if it is on.
    pub fn autoplay_toggle(&mut self) -> (calls: Vec<EngineCall>)
        requires
            old(self).well_formed(),
        ensures
            final(self).well_formed(),
            final(self).after_autoplay(old(self), !old(self).autoplay, calls_view(calls@)),
    {
        let target: bool = !self.autoplay;
        self.autoplay(target)
    }

    /// Goes to the next track of the play order, whatever the repeat mode,
    /// and plays it.
    pub fn strong_next(&mut self) -> (calls: Vec<EngineCall>)
        requires
            old(self).well_formed(),
        ensures
            final(self).well_formed(),
            final(self).moved_to(
                old(self),
                stepped_forward(old(self).playlist.cursor(), old(self).playlist.count()),
                calls_view(calls@),
            ),
    {
        self.playlist.next();
        self.play_playlist()
    }

    /// Goes back, whatever the repeat mode: to the previous track where the
    /// current one has played for at most 5 seconds, to the start of the
    /// current one otherwise.
    pub fn strong_prev(&mut self, readings: &Readings) -> (calls: Vec<EngineCall>)
        requires
            old(self).well_formed(),
        ensures
            final(self).well_formed(),
            final(self).after_strong_prev(old(self), *readings, calls_view(calls@)),
    {
        let state = self.player.get_state(readings);
        if state.time_pos <= 5 {
            self.playlist.prev();
            self.play_playlist()
        } else {
            let calls = self.seek(readings, 0, SeekMode::Absolute);
            calls
        }
    }

    /// The calls that carry out a seek.
    pub fn seek(&self, readings: &Readings, dt: i64, mode: SeekMode) -> (calls: Vec<EngineCall>)
        ensures
            calls_view(calls@) == seek_calls(*readings, dt, mode),
    {
        match mode {
            SeekMode::Absolute => one_call(self.player.seek_absolute(dt)),
            SeekMode::Relative => one_call(
                self.player.seek_relative(
                    #[verifier::truncate]
                    (dt as i32),
                ),
            ),
            SeekMode::AbsolutePercent => one_call(
                self.player.seek_percent(
                    #[verifier::truncate]
                    (dt as usize),
                ),
            ),
            SeekMode::RelativePercent => {
                let state = self.player.get_state(readings);
                match target_position(mode, dt, state.time_pos, state.duration) {
                    Some(target) => {
                        let seconds: i64 = if target > i64::MAX as u64 {
                            i64::MAX
                        } else {
                            target as i64
                        };
                        one_call(self.player.seek_absolute(seconds))
                    },
                    None => no_call(),
                }
            },
        }
    }

    /// The call that sets the volume, within 0 and 100.
    pub fn set_volume(&self, readings: &Readings, volume: Volume) -> (calls: Vec<EngineCall>)
        ensures
            calls_view(calls@) == seq![
                EngineCallView::SetVolume(
                    volume_target(readings.volume_spec() as int, volume) as i64,
                ),
            ],
    {
        match volume {
            Volume::Absolute(target) => {
                let level: i64 = if target > 100 {
                    100
                } else {
                    target as i64
                };
                one_call(EngineCall::SetVolume(level))
            },
            Volume::Relative(dv) => one_call(self.player.incr_volume(readings, dv as i64)),
        }
    }

    /// Sets the repeat mode.
    pub fn set_repeat(&mut self, repeat: Repeat) -> (calls: Vec<EngineCall>)
        ensures
            final(self).after_set_repeat(old(self), repeat, calls_view(calls@)),
            old(self).well_formed() ==> final(self).well_formed(),
    {
        self.repeat = repeat;
        one_call(self.player.set_repeat(repeat))
    }

    /// Steps the repeat mode through Off, Playlist, Song and back to Off.
    pub fn cycle_repeat(&mut self) -> (calls: Vec<EngineCall>)
        ensures
            final(self).after_set_repeat(old(self), old(self).repeat.cycled(), calls_view(calls@)),
            old(self).well_formed() ==> final(self).well_formed(),
    {
        let next: Repeat = self.repeat.cycle();
        self.set_repeat(next)
    }

    /// Goes on after the end of a track, as the repeat mode asks, and plays
    /// the track then under the cursor.
    pub fn weak_next(&mut self) -> (calls: Vec<EngineCall>)
        requires
            old(self).well_formed(),
        ensures
            final(self).well_formed(),
            final(self).moved_to(
                old(self),
                weak_next_cursor(
                    old(self).playlist.cursor(),
                    old(self).playlist.count(),
                    old(self).repeat,
                ),
                calls_view(calls@),
            ),
    {
        let was_at_end: bool = self.playlist.is_at_end();
        match self.repeat {
            Repeat::Song => {},
            Repeat::Playlist => {
                if was_at_end {
                    self.playlist.rewind();
                } else {
                    self.playlist.next();
                }
            },
            Repeat::Off => {
                self.playlist.next();
            },
        }
        proof {
            old(self).playlist.lemma_well_formed();
        }
        self.play_playlist()
    }

    /// What the handler does once per tick: while the engine plays with
    /// autoplay on, the end of a track leads on to the next one.
    pub fn update(&mut self, readings: &Readings) -> (calls: Vec<EngineCall>)
        requires
            old(self).well_formed(),
        ensures
            final(self).well_formed(),
            if old(self).player.playback_status(readings.paused_spec()) == Playback::Play
                && old(self).autoplay && old(self).playlist.loaded() && (readings.eof_reached
                == Some(true) || readings.idle_active == Some(true)) {
                final(self).moved_to(
                    old(self),
                    weak_next_cursor(
                        old(self).playlist.cursor(),
                        old(self).playlist.count(),
                        old(self).repeat,
                    ),
                    calls_view(calls@),
                )
            } else {
                &&& final(self).unchanged(old(self))
                &&& calls_view(calls@) == Seq::<EngineCallView>::empty()
            },
    {
        let state = self.player.get_state(readings);
        if state.playpause != Playback::Play {
            return no_call();
        }
        if self.autoplay && self.playlist.is_some() && state.eof {
            self.weak_next()
        } else {
            no_call()
        }
    }

    /// Carries out a playback intent.
    pub fn handle_action(&mut self, action: PlayerAction, readings: &Readings) -> (calls: Vec<
        EngineCall,
    >)
        requires
            old(self).well_formed(),
        ensures
            final(self).well_formed(),
            final(self).acted(old(self), action, *readings, calls_view(calls@)),
    {
        match action {
            PlayerAction::PlayPause(target) => {
                if target != readings.is_paused() {
                    one_call(self.player.playpause(readings))
                } else {
                    no_call()
                }
            },
            PlayerAction::PlayPauseToggle => one_call(self.player.playpause(readings)),
            PlayerAction::Stop => one_call(self.player.stop()),
            PlayerAction::Shuffle(target) => {
                self.shuffle(target);
                no_call()
            },
            PlayerAction::ShuffleToggle => {
                self.shuffle_toggle();
                no_call()
            },
            PlayerAction::Autoplay(target) => self.autoplay(target),
            PlayerAction::AutoplayToggle => self.autoplay_toggle(),
            PlayerAction::Seek { dt, mode } => self.seek(readings, dt, mode),
            PlayerAction::Prev => self.strong_prev(readings),
            PlayerAction::Next => self.strong_next(),
            PlayerAction::SetVolume(volume) => self.set_volume(readings, volume),
            PlayerAction::SetTrackList(tracks) => {
                self.playlist.set_playlist(tracks);
                no_call()
            },
            PlayerAction::SetRepeat(repeat) => self.set_repeat(repeat),
            PlayerAction::CycleRepeat => self.cycle_repeat(),
        }
    }

    /// Answers a request: a playback intent is carried out and reported on, a
    /// query for the player's state is reported on, anything else is left to
    /// others.
    pub fn handle_request(&mut self, request: Request, readings: &Readings) -> (r: Reaction)
        requires
            old(self).well_formed(),
        ensures
            final(self).well_formed(),
            match request {
                Request::PlayerAction(action) => {
                    &&& final(self).acted(old(self), action, *readings, calls_view(r.calls@))
                    &&& r.send_info
                },
                Request::Get(GetRequest::PlayerInfo) => {
                    &&& final(self).unchanged(old(self))
                    &&& calls_view(r.calls@) == Seq::<EngineCallView>::empty()
                    &&& r.send_info
                },
                _ => {
                    &&& final(self).unchanged(old(self))
                    &&& calls_view(r.calls@) == Seq::<EngineCallView>::empty()
                    &&& !r.send_info
                },
            },
    {
        match request {
            Request::PlayerAction(action) => {
                let calls = self.handle_action(action, readings);
                Reaction { calls, send_info: true }
            },
            Request::Get(GetRequest::PlayerInfo) => Reaction { calls: no_call(), send_info: true },
            _ => Reaction { calls: no_call(), send_info: false },
        }
    }

    /// The snapshot of the player to send back.
    pub fn send_info(&self, readings: &Readings) -> (info: PlayerInfo)
        requires
            self.well_formed(),
        ensures
            info@.playback == self.player.playback_status(readings.paused_spec()),
            info@.song_info == if self.playlist.loaded() {
                Some(self.playlist.current_song_view())
            } else {
                song_option_view(self.current_track)
            },
            info@.tracklist == if self.playlist.loaded() {
                self.playlist.tracklist()
            } else {
                PlaylistInfo::empty_view()
            },
            info@.track_index == self.playlist.current_index(),
            info@.shuffled == self.shuffle,
            info@.autoplay == self.autoplay,
            info@.repeat == self.repeat,
            info@.volume == (match readings.volume {
                Some(v) => v,
                None => 0i64,
            }) as u8,
            info@.position == readings.position_spec(),
            info@.can_seek,
    {
        let state = self.player.get_state(readings);
        let song_info = match self.playlist.current_song() {
            Some(song) => Some(song),
            None => clone_song_option(&self.current_track),
        };
        PlayerInfo {
            playback: state.playpause,
            song_info,
            tracklist: self.playlist.tracks(),
            track_index: self.playlist.get_current(),
            shuffled: self.shuffle,
            autoplay: self.autoplay,
            repeat: self.repeat,
            volume: #[verifier::truncate]
            (state.volume as u8),
            position: state.time_pos,
            can_seek: true,
        }
    }
}

} // verus!
