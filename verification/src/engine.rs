//! The playback engine as the library sees it: the readings taken from it,
//! the calls to make on it, and the small rules of a single player.
use crate::protocol::{Playback, Repeat};
use vstd::prelude::*;

verus! {

/// What was read from the engine. A reading that failed is `None`.
#[derive(Debug, Clone, Copy, PartialEq, Eq, Structural)]
pub struct Readings {
    /// Length of the loaded media, in seconds.
    pub duration: Option<i64>,
    /// Position in the loaded media, in seconds.
    pub time_pos: Option<i64>,
    pub volume: Option<i64>,
    pub paused: Option<bool>,
    /// The end of the media was reached.
    pub eof_reached: Option<bool>,
    /// Nothing is loaded.
    pub idle_active: Option<bool>,
}

impl Readings {
    /// Whether the engine is paused. An engine that does not say is taken to be.
    pub open spec fn paused_spec(&self) -> bool {
        match self.paused {
            Some(p) => p,
            None => true,
        }
    }

    /// The volume to start a change from. An engine that does not say is
    /// taken to be at full volume.
    pub open spec fn volume_spec(&self) -> i64 {
        match self.volume {
            Some(v) => v,
            None => 100,
        }
    }

    /// The position in the loaded media, in seconds, as the player counts
    /// it: a failed reading counts as zero.
    pub open spec fn position_spec(&self) -> u64 {
        (match self.time_pos {
            Some(t) => t,
            None => 0i64,
        }) as u64
    }

    /// The length of the loaded media, in seconds, as the player counts it:
    /// a failed reading counts as zero.
    pub open spec fn duration_spec(&self) -> u64 {
        (match self.duration {
            Some(d) => d,
            None => 0i64,
        }) as u64
    }

    /// Whether the engine is paused. An engine that does not say is taken to be.
    pub fn is_paused(&self) -> (r: bool)
        ensures
            r == self.paused_spec(),
    {
        match self.paused {
            Some(p) => p,
            None => true,
        }
    }

    /// The volume to start a change from.
    pub fn get_volume(&self) -> (r: i64)
        ensures
            r == self.volume_spec(),
    {
        match self.volume {
            Some(v) => v,
            None => 100,
        }
    }
}

/// The state of a player at one moment.
#[derive(Debug, Clone, Copy, PartialEq, Eq, Structural)]
pub struct State {
    /// Length of the loaded media, in seconds.
    pub duration: u64,
    /// Position in the loaded media, in seconds.
    pub time_pos: u64,
    pub volume: i64,
    pub playpause: Playback,
    /// The loaded media has been played to its end, or nothing is loaded.
    pub eof: bool,
}

/// How the engine is to loop.
#[derive(Debug, Clone, Copy, PartialEq, Eq, Structural)]
pub struct LoopSettings {
    pub playlist: bool,
    pub file: bool,
}

/// What an [`EngineCall`] stands for in contracts.
pub enum EngineCallView {
    Pause,
    Unpause,
    Stop,
    Load(Seq<char>),
    SeekAbsolute(i64),
    SeekRelative(i32),
    SeekPercent(usize),
    SetVolume(i64),
    SetLoop(LoopSettings),
    Shuffle,
    Unshuffle,
    ClearPlaylist,
    LoadFiles(Seq<Seq<char>>),
    PlaylistNext,
    PlaylistPrev,
}

/// One call to make on the engine.
#[derive(Debug, Clone, PartialEq, Eq)]
pub enum EngineCall {
    Pause,
    Unpause,
    Stop,
    /// Load and play the media at this address.
    Load(String),
    /// Seek to this many seconds from the start.
    SeekAbsolute(i64),
    /// Seek by this many seconds from the current position.
    SeekRelative(i32),
    /// Seek to this percentage of the media.
    SeekPercent(usize),
    SetVolume(i64),
    SetLoop(LoopSettings),
    /// Shuffle the playlist of the engine.
    Shuffle,
    /// Put the playlist of the engine back in order.
    Unshuffle,
    /// Empty the playlist of the engine.
    ClearPlaylist,
    /// Append these addresses to the playlist of the engine, and play.
    LoadFiles(Vec<String>),
    /// Go to the next entry of the playlist of the engine, if there is one.
    PlaylistNext,
    /// Go to the previous entry of the playlist of the engine, if there is one.
    PlaylistPrev,
}

impl View for EngineCall {
    type V = EngineCallView;

    open spec fn view(&self) -> EngineCallView {
        match self {
            EngineCall::Pause => EngineCallView::Pause,
            EngineCall::Unpause => EngineCallView::Unpause,
            EngineCall::Stop => EngineCallView::Stop,
            EngineCall::Load(url) => EngineCallView::Load(url@),
            EngineCall::SeekAbsolute(dt) => EngineCallView::SeekAbsolute(*dt),
            EngineCall::SeekRelative(dt) => EngineCallView::SeekRelative(*dt),
            EngineCall::SeekPercent(p) => EngineCallView::SeekPercent(*p),
            EngineCall::SetVolume(v) => EngineCallView::SetVolume(*v),
            EngineCall::SetLoop(l) => EngineCallView::SetLoop(*l),
            EngineCall::Shuffle => EngineCallView::Shuffle,
            EngineCall::Unshuffle => EngineCallView::Unshuffle,
            EngineCall::ClearPlaylist => EngineCallView::ClearPlaylist,
            EngineCall::LoadFiles(urls) => EngineCallView::LoadFiles(
                Seq::new(urls@.len(), |i: int| urls@[i]@),
            ),
            EngineCall::PlaylistNext => EngineCallView::PlaylistNext,
            EngineCall::PlaylistPrev => EngineCallView::PlaylistPrev,
        }
    }
}

/// The calls of `calls`, each by its view.
pub open spec fn calls_view(calls: Seq<EngineCall>) -> Seq<EngineCallView> {
    Seq::new(calls.len(), |i: int| calls[i]@)
}

/// No call at all.
pub fn no_call() -> (r: Vec<EngineCall>)
    ensures
        calls_view(r@) == Seq::<EngineCallView>::empty(),
{
    let r: Vec<EngineCall> = Vec::new();
    assert(calls_view(r@) =~= Seq::<EngineCallView>::empty());
    r
}

/// A single call.
pub fn one_call(call: EngineCall) -> (r: Vec<EngineCall>)
    ensures
        calls_view(r@) == seq![call@],
{
    let mut r: Vec<EngineCall> = Vec::new();
    r.push(call);
    assert(calls_view(r@) =~= seq![call@]);
    r
}

/// The volume reached from `volume` by the step `dv`, kept within 0 and 100.
pub open spec fn stepped_volume(volume: int, dv: int) -> int {
    if volume + dv > 100 {
        100
    } else if volume + dv < 0 {
        0
    } else {
        volume + dv
    }
}

/// The loop settings that realise a repeat mode.
pub open spec fn loop_settings(repeat: Repeat) -> LoopSettings {
    match repeat {
        Repeat::Off => LoopSettings { playlist: false, file: false },
        Repeat::Song => LoopSettings { playlist: false, file: true },
        Repeat::Playlist => LoopSettings { playlist: true, file: false },
    }
}

/// The argument with which the engine is told to load `url`: the address
/// between double quotes.
pub open spec fn load_argument(url: Seq<char>) -> Seq<char> {
    seq!['"'] + url + seq!['"']
}

/// Whether the engine is paused after `calls`, if it was `paused` before.
pub open spec fn paused_after(paused: bool, calls: Seq<EngineCallView>) -> bool
    decreases calls.len(),
{
    if calls.len() == 0 {
        paused
    } else {
        match calls.last() {
            EngineCallView::Pause => true,
            EngineCallView::Unpause => false,
            _ => paused_after(paused, calls.drop_last()),
        }
    }
}

/// One player: what the library remembers of the engine between calls.
#[derive(Debug, Clone, Copy, PartialEq, Eq, Structural)]
pub struct Player {
    /// Nothing has been loaded since the player was made or stopped.
    pub stopped: bool,
}

impl Player {
    /// A player that has not played anything yet.
    pub fn new() -> (r: Player)
        ensures
            r.stopped,
    {
        Player { stopped: true }
    }

    /// The playback status shown for the player.
    pub open spec fn playback_status(&self, paused: bool) -> Playback {
        if self.stopped {
            Playback::Stop
        } else if paused {
            Playback::Pause
        } else {
            Playback::Play
        }
    }

    /// The state of the player, from what was read from the engine. A
    /// reading that failed counts as zero or `false`; a failed reading of
    /// the pause flag counts as paused.
    pub fn get_state(&self, readings: &Readings) -> (r: State)
        ensures
            r.duration == readings.duration_spec(),
            r.time_pos == readings.position_spec(),
            r.volume == match readings.volume {
                Some(v) => v,
                None => 0i64,
            },
            r.playpause == self.playback_status(readings.paused_spec()),
            r.eof == (readings.eof_reached == Some(true) || readings.idle_active == Some(true)),
    {
        let duration: i64 = match readings.duration {
            Some(d) => d,
            None => 0,
        };
        let time_pos: i64 = match readings.time_pos {
            Some(t) => t,
            None => 0,
        };
        let volume: i64 = match readings.volume {
            Some(v) => v,
            None => 0,
        };
        let eof_reached: bool = match readings.eof_reached {
            Some(b) => b,
            None => false,
        };
        let idle_active: bool = match readings.idle_active {
            Some(b) => b,
            None => false,
        };
        State {
            duration: #[verifier::truncate]
            (duration as u64),
            time_pos: #[verifier::truncate]
            (time_pos as u64),
            volume,
            playpause: self.get_playback_status(readings),
            eof: eof_reached || idle_active,
        }
    }

    /// The playback status shown for the player.
    pub fn get_playback_status(&self, readings: &Readings) -> (r: Playback)
        ensures
            r == self.playback_status(readings.paused_spec()),
    {
        if self.is_stopped() {
            Playback::Stop
        } else if readings.is_paused() {
            Playback::Pause
        } else {
            Playback::Play
        }
    }

    /// The call that flips the pause flag of the engine.
    pub fn playpause(&self, readings: &Readings) -> (r: EngineCall)
        ensures
            r@ == if readings.paused_spec() {
                EngineCallView::Unpause
            } else {
                EngineCallView::Pause
            },
    {
        if readings.is_paused() {
            EngineCall::Unpause
        } else {
            EngineCall::Pause
        }
    }

    /// The call that loads and plays `url`.
    pub fn play(&self, url: &str) -> (r: EngineCall)
        ensures
            r@ == EngineCallView::Load(load_argument(url@)),
    {
        let quoted: String = "\"".to_owned().concat(url).concat("\"");
        proof {
            reveal_strlit("\"");
            assert("\""@ =~= seq!['"']);
        }
        EngineCall::Load(quoted)
    }

    /// Records how a load went: a player that loaded something is no longer
    /// stopped.
    pub fn loaded(&mut self, ok: bool)
        ensures
            final(self).stopped == (old(self).stopped && !ok),
    {
        if ok {
            self.stopped = false;
        }
    }

    /// The call that changes the volume by `dv`, kept within 0 and 100.
    pub fn incr_volume(&self, readings: &Readings, dv: i64) -> (r: EngineCall)
        ensures
            r@ == EngineCallView::SetVolume(
                stepped_volume(readings.volume_spec() as int, dv as int) as i64,
            ),
    {
        let volume: i64 = readings.get_volume();
        let target: i64 = match volume.checked_add(dv) {
            Some(sum) => if sum > 100 {
                100
            } else if sum < 0 {
                0
            } else {
                sum
            },
            None => if dv > 0 {
                100
            } else {
                0
            },
        };
        EngineCall::SetVolume(target)
    }

    /// Stops the player.
    pub fn stop(&mut self) -> (r: EngineCall)
        ensures
            final(self).stopped,
            r@ == EngineCallView::Stop,
    {
        self.stopped = true;
        EngineCall::Stop
    }

    /// Whether nothing has been loaded since the player was made or stopped.
    pub fn is_stopped(&self) -> (r: bool)
        ensures
            r == self.stopped,
    {
        self.stopped
    }

    /// The call that seeks by `dt` seconds from the current position.
    pub fn seek_relative(&self, dt: i32) -> (r: EngineCall)
        ensures
            r@ == EngineCallView::SeekRelative(dt),
    {
        EngineCall::SeekRelative(dt)
    }

    /// The call that seeks to `percent` percent of the media.
    pub fn seek_percent(&self, percent: usize) -> (r: EngineCall)
        ensures
            r@ == EngineCallView::SeekPercent(percent),
    {
        EngineCall::SeekPercent(percent)
    }

    /// The call that seeks to `dt` seconds from the start.
    pub fn seek_absolute(&self, dt: i64) -> (r: EngineCall)
        ensures
            r@ == EngineCallView::SeekAbsolute(dt),
    {
        EngineCall::SeekAbsolute(dt)
    }

    /// The call that makes the engine loop as `repeat` asks.
    pub fn set_repeat(&self, repeat: Repeat) -> (r: EngineCall)
        ensures
            r@ == EngineCallView::SetLoop(loop_settings(repeat)),
    {
        match repeat {
            Repeat::Off => EngineCall::SetLoop(LoopSettings { playlist: false, file: false }),
            Repeat::Song => EngineCall::SetLoop(LoopSettings { playlist: false, file: true }),
            Repeat::Playlist => EngineCall::SetLoop(LoopSettings { playlist: true, file: false }),
        }
    }
}

} // verus!
