//! The backend of the remote streaming service: what it keeps, and what it
//! asks of the service for each request. The calls to the service are the
//! caller's; the decisions are here.
use crate::catalog::{has_id, is_first_with_id};
use crate::player::volume_target;
use crate::protocol::{
    clone_songs, playlists_view, songs_view, Answer, GetRequest, Playback, PlayerAction,
    PlayerInfo, PlayerInfoView, PlaylistInfo, PlaylistInfoView, Repeat, Request, SeekMode,
    SongInfo, SongInfoView, Volume, Widget,
};
use crate::seek::{saturated, seek_target, target_position};
use crate::text::{
    concat_texts, concatenated, join, joined, split_words, starts_with, text_or_empty, texts_view,
    whitespace_words,
};
use vstd::prelude::*;

verus! {

/// The one error of this backend.
#[derive(Debug, Clone, Copy, PartialEq, Eq, Structural)]
pub struct Error;

impl Error {
    /// What the error says.
    pub fn message(&self) -> (text: String)
        ensures
            text@ == "Error in spotify backend"@,
    {
        "Error in spotify backend".to_owned()
    }
}

/// The repeat state as the service names it.
#[derive(Debug, Clone, Copy, PartialEq, Eq, Structural)]
pub enum RepeatState {
    Off,
    Track,
    Context,
}

impl RepeatState {
    /// The repeat mode that the state stands for.
    pub open spec fn as_repeat(self) -> Repeat {
        match self {
            RepeatState::Off => Repeat::Off,
            RepeatState::Track => Repeat::Song,
            RepeatState::Context => Repeat::Playlist,
        }
    }

    /// The state that stands for a repeat mode.
    pub open spec fn of_repeat(repeat: Repeat) -> RepeatState {
        match repeat {
            Repeat::Off => RepeatState::Off,
            Repeat::Playlist => RepeatState::Context,
            Repeat::Song => RepeatState::Track,
        }
    }

    /// The repeat mode that the state stands for.
    pub fn to_repeat(self) -> (r: Repeat)
        ensures
            r == self.as_repeat(),
    {
        match self {
            RepeatState::Off => Repeat::Off,
            RepeatState::Track => Repeat::Song,
            RepeatState::Context => Repeat::Playlist,
        }
    }

    /// The state that stands for a repeat mode.
    pub fn from_repeat(repeat: Repeat) -> (r: RepeatState)
        ensures
            r == RepeatState::of_repeat(repeat),
    {
        match repeat {
            Repeat::Off => RepeatState::Off,
            Repeat::Playlist => RepeatState::Context,
            Repeat::Song => RepeatState::Track,
        }
    }
}

/// A track as the service describes it.
#[derive(Debug, Clone, PartialEq, Eq)]
pub struct Track {
    pub id: Option<String>,
    pub name: String,
    /// The names of the artists.
    pub artists: Vec<String>,
    /// The addresses of the covers of the album, the preferred one first.
    pub images: Vec<String>,
    pub href: Option<String>,
    /// Length of the track, in whole seconds.
    pub duration: u64,
}

/// Something the service can play.
#[derive(Debug, Clone, PartialEq, Eq)]
pub enum Playable {
    Track(Track),
    Episode,
}

/// The first of `images`, or the empty text where there is none.
pub open spec fn first_or_empty(images: Seq<String>) -> Seq<char> {
    if images.len() > 0 {
        images[0]@
    } else {
        Seq::empty()
    }
}

/// The first of `images`, or the empty text where there is none.
fn first_image(images: &Vec<String>) -> (r: String)
    ensures
        r@ == first_or_empty(images@),
{
    if images.len() > 0 {
        images[0].clone()
    } else {
        String::new()
    }
}

impl Track {
    /// The track as the front end knows it. A track without an id is the
    /// empty track. The artists are named one after the other.
    pub open spec fn info_view(&self) -> SongInfoView {
        match self.id {
            None => SongInfo::empty_view(),
            Some(id) => SongInfoView {
                title: self.name@,
                artist: concatenated(texts_view(self.artists@)),
                cover_url: first_or_empty(self.images@),
                id: id@,
                url: text_or_empty(self.href),
                duration: self.duration as nat,
            },
        }
    }

    /// The track as the front end knows it.
    pub fn info(&self) -> (r: SongInfo)
        ensures
            r@ == self.info_view(),
    {
        match &self.id {
            None => SongInfo::default(),
            Some(id) => SongInfo {
                title: self.name.clone(),
                artist: concat_texts(&self.artists),
                cover_url: first_image(&self.images),
                id: id.clone(),
                url: match &self.href {
                    Some(href) => href.clone(),
                    None => String::new(),
                },
                duration: self.duration,
            },
        }
    }
}

impl Playable {
    /// The item as the front end knows it. An episode is the empty track.
    pub open spec fn info_view(&self) -> SongInfoView {
        match self {
            Playable::Track(track) => track.info_view(),
            Playable::Episode => SongInfo::empty_view(),
        }
    }

    /// The item as the front end knows it.
    pub fn info(&self) -> (r: SongInfo)
        ensures
            r@ == self.info_view(),
    {
        match self {
            Playable::Track(track) => track.info(),
            Playable::Episode => SongInfo::default(),
        }
    }
}

/// The queue of the user as a track list: it has no title and no id, and is
/// as long as the queue.
pub fn queue_info(queue: &Vec<Playable>) -> (r: PlaylistInfo)
    ensures
        r@ == (PlaylistInfoView {
            title: Seq::empty(),
            length: queue@.len(),
            cover_url: Seq::empty(),
            id: Seq::empty(),
            songs: Seq::new(queue@.len(), |i: int| queue@[i].info_view()),
        }),
        r.well_formed(),
{
    let mut songs: Vec<SongInfo> = Vec::new();
    let mut i: usize = 0;
    while i < queue.len()
        invariant
            i <= queue@.len(),
            songs@.len() == i,
            forall|k: int| 0 <= k < i ==> songs@[k]@ == queue@[k].info_view(),
        decreases queue@.len() - i,
    {
        songs.push(queue[i].info());
        i += 1;
    }
    let r = PlaylistInfo {
        title: String::new(),
        length: queue.len(),
        cover_url: String::new(),
        id: String::new(),
        songs,
    };
    assert(r@.songs =~= Seq::new(queue@.len(), |i: int| queue@[i].info_view()));
    r
}

/// A playlist as the service lists it, before its tracks are loaded.
#[derive(Debug, Clone, PartialEq, Eq)]
pub struct PlaylistSummary {
    pub id: String,
    pub name: String,
    /// The addresses of the covers, the preferred one first.
    pub images: Vec<String>,
    /// The number of tracks that the service announces.
    pub total: u32,
}

/// One entry of a page of playlist items: the item, or nothing where the
/// page could not be had or the entry holds no item.
pub type PageItem = Option<Playable>;

/// The tracks that a run of page items adds to a playlist: every track that
/// has an id, in the order of the pages.
pub open spec fn loaded_songs(items: Seq<PageItem>) -> Seq<SongInfoView>
    decreases items.len(),
{
    if items.len() == 0 {
        Seq::empty()
    } else {
        let before = loaded_songs(items.drop_last());
        match items.last() {
            Some(Playable::Track(track)) => if track.id is Some {
                before.push(track.info_view())
            } else {
                before
            },
            _ => before,
        }
    }
}

/// A playlist of the service.
#[derive(Debug)]
pub struct Playlist {
    pub id: String,
    pub songs: Vec<SongInfo>,
    pub title: String,
    pub cover_url: String,
    pub length: usize,
}

impl Playlist {
    /// The playlist as the front end knows it.
    pub open spec fn info_view(&self) -> PlaylistInfoView {
        PlaylistInfoView {
            title: self.title@,
            length: self.length as nat,
            cover_url: self.cover_url@,
            id: self.id@,
            songs: songs_view(self.songs@),
        }
    }

    /// A playlist without tracks yet, from what the service lists.
    pub fn new(playlist: PlaylistSummary) -> (r: Playlist)
        ensures
            r.id == playlist.id,
            r.title == playlist.name,
            r.cover_url@ == first_or_empty(playlist.images@),
            r.length == playlist.total,
            r.songs@.len() == 0,
    {
        let cover_url = first_image(&playlist.images);
        Playlist {
            id: playlist.id,
            songs: Vec::new(),
            title: playlist.name,
            cover_url,
            length: playlist.total as usize,
        }
    }

    /// The tracks loaded so far.
    pub fn get_songs(&self) -> (r: Vec<SongInfo>)
        ensures
            songs_view(r@) == songs_view(self.songs@),
            r@.len() == self.songs@.len(),
    {
        clone_songs(&self.songs)
    }

    /// Takes the tracks of the pages of the playlist. A playlist that has
    /// tracks already is left as it is.
    pub fn load(&mut self, items: &Vec<PageItem>)
        ensures
            final(self).id == old(self).id,
            final(self).title == old(self).title,
            final(self).cover_url == old(self).cover_url,
            final(self).length == old(self).length,
            songs_view(final(self).songs@) == if old(self).songs@.len() > 0 {
                songs_view(old(self).songs@)
            } else {
                loaded_songs(items@)
            },
    {
        if self.songs.len() > 0 {
            return ;
        }
        let mut songs: Vec<SongInfo> = Vec::new();
        let mut i: usize = 0;
        assert(items@.take(0) =~= Seq::<PageItem>::empty());
        assert(songs_view(songs@) =~= loaded_songs(items@.take(0)));
        while i < items.len()
            invariant
                i <= items@.len(),
                songs_view(songs@) == loaded_songs(items@.take(i as int)),
            decreases items@.len() - i,
        {
            let ghost before = songs_view(songs@);
            proof {
                let now = items@.take(i + 1);
                assert(now.drop_last() =~= items@.take(i as int));
                assert(now.last() == items@[i as int]);
            }
            match &items[i] {
                Some(Playable::Track(track)) => {
                    if track.id.is_some() {
                        let info = track.info();
                        songs.push(info);
                        assert(songs_view(songs@) =~= before.push(track.info_view()));
                    }
                },
                _ => {},
            }
            i += 1;
        }
        assert(items@.take(items@.len() as int) =~= items@);
        self.songs = songs;
    }

    /// The playlist as the front end knows it.
    pub fn get_info(&self) -> (r: PlaylistInfo)
        ensures
            r@ == self.info_view(),
    {
        PlaylistInfo {
            title: self.title.clone(),
            length: self.length,
            cover_url: self.cover_url.clone(),
            id: self.id.clone(),
            songs: self.get_songs(),
        }
    }
}

/// What the user is told to do to sign in at `url`.
pub open spec fn sign_in_message(url: Seq<char>) -> Seq<char> {
    "Go to "@ + url + ", and paste back the resulting url"@
}

/// The dialog that asks the user to sign in at `url` and to paste back the
/// address that the service then sends the browser to; the answer travels
/// through `backchannel`.
pub fn connect_prompt(url: &str, backchannel: tokio::sync::oneshot::Sender<String>) -> (r: Widget)
    ensures
        r matches Widget::PromptBox { title, content, backchannel: channel } && title@
            == "Connect to Spotify"@ && content@ == sign_in_message(url@) && channel == backchannel,
{
    Widget::PromptBox {
        title: "Connect to Spotify".to_owned(),
        content: "Go to ".to_owned().concat(url).concat(", and paste back the resulting url"),
        backchannel,
    }
}

/// A device on which the service can play.
#[derive(Debug, PartialEq, Eq)]
pub struct Device {
    pub id: Option<String>,
    pub name: String,
}

impl Clone for Device {
    fn clone(&self) -> (r: Device)
        ensures
            r.name@ == self.name@,
            r.id is Some == self.id is Some,
            text_or_empty(r.id) == text_or_empty(self.id),
    {
        Device {
            id: match &self.id {
                Some(id) => Some(id.clone()),
                None => None,
            },
            name: self.name.clone(),
        }
    }
}

/// What the service reports of the playback at one moment.
#[derive(Debug, Clone, PartialEq, Eq)]
pub struct Context {
    pub is_playing: bool,
    /// What is being played.
    pub item: Option<Playable>,
    pub repeat_state: RepeatState,
    /// The volume of the device, in percent.
    pub volume_percent: Option<u32>,
    /// Position within what is being played, in whole seconds.
    pub progress: Option<u64>,
}

/// The position that the service reports, or the start where it reports none.
pub open spec fn progress_of(context: Option<Context>) -> u64 {
    match context {
        Some(c) => match c.progress {
            Some(p) => p,
            None => 0,
        },
        None => 0,
    }
}

/// The length of the track that the service reports as playing, or zero
/// where it reports none.
pub open spec fn length_of(context: Option<Context>) -> u64 {
    match context {
        Some(c) => match c.item {
            Some(Playable::Track(track)) => track.duration,
            _ => 0,
        },
        None => 0,
    }
}

/// The volume that the service reports, or zero where it reports none.
pub open spec fn volume_of(context: Option<Context>) -> u32 {
    match context {
        Some(c) => match c.volume_percent {
            Some(v) => v,
            None => 0,
        },
        None => 0,
    }
}

/// What an [`ApiCall`] stands for in contracts.
pub enum ApiCallView {
    Previous,
    Next,
    Pause,
    Resume,
    Shuffle(bool),
    Repeat(RepeatState),
    Volume(u8),
    Seek(u64),
    StartPlaylist(Seq<char>),
}

/// One call to make on the service, on the selected device.
#[derive(Debug, Clone, PartialEq, Eq)]
pub enum ApiCall {
    Previous,
    Next,
    Pause,
    Resume,
    Shuffle(bool),
    Repeat(RepeatState),
    /// Set the volume to this level, from 0 to 100.
    Volume(u8),
    /// Seek to this many seconds from the start of the track.
    Seek(u64),
    /// Play the playlist with this id from its start.
    StartPlaylist(String),
}

impl View for ApiCall {
    type V = ApiCallView;

    open spec fn view(&self) -> ApiCallView {
        match self {
            ApiCall::Previous => ApiCallView::Previous,
            ApiCall::Next => ApiCallView::Next,
            ApiCall::Pause => ApiCallView::Pause,
            ApiCall::Resume => ApiCallView::Resume,
            ApiCall::Shuffle(target) => ApiCallView::Shuffle(*target),
            ApiCall::Repeat(state) => ApiCallView::Repeat(*state),
            ApiCall::Volume(level) => ApiCallView::Volume(*level),
            ApiCall::Seek(target) => ApiCallView::Seek(*target),
            ApiCall::StartPlaylist(id) => ApiCallView::StartPlaylist(id@),
        }
    }
}

/// The view of an optional call.
pub open spec fn call_view(call: Option<ApiCall>) -> Option<ApiCallView> {
    match call {
        Some(c) => Some(c@),
        None => None,
    }
}

/// The call that resumes or pauses.
pub open spec fn playpause_call(target: bool) -> ApiCallView {
    if target {
        ApiCallView::Resume
    } else {
        ApiCallView::Pause
    }
}

/// The call that carries out a seek, if the seek does anything.
pub open spec fn seek_call(dt: i64, mode: SeekMode, context: Option<Context>) -> Option<
    ApiCallView,
> {
    match seek_target(
        mode,
        dt as int,
        progress_of(context) as nat,
        length_of(context) as nat,
    ) {
        Some(t) => Some(ApiCallView::Seek(saturated(t))),
        None => None,
    }
}

/// The call that sets the volume, within 0 and 100.
pub open spec fn volume_call(volume: Volume, context: Option<Context>) -> ApiCallView {
    ApiCallView::Volume(volume_target(volume_of(context) as int, volume) as u8)
}

/// The call that steps the repeat mode through Off, Playlist, Song and back
/// to Off, from what the service reports; none where it reports nothing.
pub open spec fn cycle_call(context: Option<Context>) -> Option<ApiCallView> {
    match context {
        Some(c) => Some(
            ApiCallView::Repeat(RepeatState::of_repeat(c.repeat_state.as_repeat().cycled())),
        ),
        None => None,
    }
}

/// The playlists of `lists`, each as the front end knows it.
pub open spec fn infos_view(lists: Seq<Playlist>) -> Seq<PlaylistInfoView> {
    Seq::new(lists.len(), |i: int| lists[i].info_view())
}

/// The device at `i` is the first of `devices` with the name `name`.
pub open spec fn is_first_named(devices: Seq<Device>, name: Seq<char>, i: int) -> bool {
    &&& 0 <= i < devices.len()
    &&& devices[i].name@ == name
    &&& forall|j: int| 0 <= j < i ==> (#[trigger] devices[j]).name@ != name
}

/// Some device of `devices` has the name `name`.
pub open spec fn has_name(devices: Seq<Device>, name: Seq<char>) -> bool {
    exists|i: int| 0 <= i < devices.len() && (#[trigger] devices[i]).name@ == name
}

/// The names of `devices`.
pub open spec fn names_view(devices: Seq<Device>) -> Seq<Seq<char>> {
    Seq::new(devices.len(), |i: int| devices[i].name@)
}

/// The index of the first device of `devices` with the name `name`.
pub fn find_device_by_name(devices: &Vec<Device>, name: &String) -> (r: Option<usize>)
    ensures
        match r {
            Some(i) => is_first_named(devices@, name@, i as int),
            None => !has_name(devices@, name@),
        },
{
    let mut i: usize = 0;
    while i < devices.len()
        invariant
            i <= devices@.len(),
            forall|j: int| 0 <= j < i ==> (#[trigger] devices@[j]).name@ != name@,
        decreases devices@.len() - i,
    {
        if devices[i].name == *name {
            return Some(i);
        }
        i += 1;
    }
    None
}

/// What a command amounts to.
pub enum CommandKind {
    /// List the devices.
    ListDevices,
    /// Select the device named by the last of three words.
    SelectDevice,
    /// Nothing that this backend knows.
    Unknown,
}

/// What a command amounts to: `devices list` lists the devices, and a
/// command that begins with `devices select` selects one.
pub open spec fn command_kind(command: Seq<char>) -> CommandKind {
    if command == "devices list"@ {
        CommandKind::ListDevices
    } else if "devices select"@.is_prefix_of(command) {
        CommandKind::SelectDevice
    } else {
        CommandKind::Unknown
    }
}

/// The state of the backend.
#[derive(Debug)]
pub struct Backend {
    pub playlists: Vec<Playlist>,
    pub shuffled: bool,
    pub autoplay: bool,
    /// The snapshot of the player that was reported last.
    pub last_info: PlayerInfo,
    /// The device to play on.
    pub device: Option<Device>,
}

impl Backend {
    /// A backend that knows no playlist and no device.
    pub fn new() -> (r: Backend)
        ensures
            r.playlists@.len() == 0,
            !r.shuffled,
            !r.autoplay,
            r.last_info@ == PlayerInfo::empty_view(),
            r.device is None,
    {
        Backend {
            playlists: Vec::new(),
            shuffled: false,
            autoplay: false,
            last_info: PlayerInfo::default(),
            device: None,
        }
    }

    /// `self` is `before` but for the flags of shuffle and autoplay.
    pub open spec fn same_but_flags(&self, before: &Backend) -> bool {
        &&& self.playlists == before.playlists
        &&& self.last_info == before.last_info
        &&& self.device == before.device
    }

    /// The id of the device to play on: none without a device, the empty
    /// text for a device without an id.
    pub fn get_device_id(&self) -> (r: Option<String>)
        ensures
            r is Some == self.device is Some,
            r is Some ==> r->0@ == text_or_empty(self.device->0.id),
    {
        match &self.device {
            Some(device) => Some(
                match &device.id {
                    Some(id) => id.clone(),
                    None => String::new(),
                },
            ),
            None => None,
        }
    }

    /// The call that resumes the playback, or pauses it.
    pub fn playpause(&self, target: bool) -> (r: ApiCall)
        ensures
            r@ == playpause_call(target),
    {
        if target {
            ApiCall::Resume
        } else {
            ApiCall::Pause
        }
    }

    /// The call that pauses the playback if it was last reported as
    /// playing, and resumes it otherwise.
    pub fn playpause_toggle(&self) -> (r: ApiCall)
        ensures
            r@ == playpause_call(self.last_info.playback != Playback::Play),
    {
        if self.last_info.playback == Playback::Play {
            ApiCall::Pause
        } else {
            ApiCall::Resume
        }
    }

    /// Turns shuffle on or off.
    pub fn shuffle(&mut self, target: bool) -> (r: ApiCall)
        ensures
            r@ == ApiCallView::Shuffle(target),
            final(self).shuffled == target,
            final(self).autoplay == old(self).autoplay,
            final(self).same_but_flags(old(self)),
    {
        self.shuffled = target;
        ApiCall::Shuffle(target)
    }

    /// Turns autoplay on or off, which resumes or pauses the playback.
    pub fn autoplay(&mut self, target: bool) -> (r: ApiCall)
        ensures
            r@ == playpause_call(target),
            final(self).autoplay == target,
            final(self).shuffled == old(self).shuffled,
            final(self).same_but_flags(old(self)),
    {
        self.autoplay = target;
        self.playpause(target)
    }

    /// The call that sets the repeat mode.
    pub fn set_repeat(&self, repeat: Repeat) -> (r: ApiCall)
        ensures
            r@ == ApiCallView::Repeat(RepeatState::of_repeat(repeat)),
    {
        ApiCall::Repeat(RepeatState::from_repeat(repeat))
    }

    /// The call that steps the repeat mode through Off, Playlist, Song and
    /// back to Off.
    pub fn cycle_repeat(&self, context: &Option<Context>) -> (r: Option<ApiCall>)
        ensures
            call_view(r) == cycle_call(*context),
    {
        match context {
            Some(playback) => Some(self.set_repeat(playback.repeat_state.to_repeat().cycle())),
            None => None,
        }
    }

    /// The volume that the service reports, or zero where it reports none.
    pub fn get_volume(&self, context: &Option<Context>) -> (r: u32)
        ensures
            r == volume_of(*context),
    {
        match context {
            Some(c) => match c.volume_percent {
                Some(v) => v,
                None => 0,
            },
            None => 0,
        }
    }

    /// The call that sets the volume, within 0 and 100.
    pub fn set_volume(&self, volume: Volume, context: &Option<Context>) -> (r: ApiCall)
        ensures
            r@ == volume_call(volume, *context),
    {
        match volume {
            Volume::Absolute(target) => {
                if target > 100 {
                    ApiCall::Volume(100)
                } else {
                    ApiCall::Volume(target as u8)
                }
            },
            Volume::Relative(delta) => {
                let level: i128 = self.get_volume(context) as i128 + delta as i128;
                if level > 100 {
                    ApiCall::Volume(100)
                } else if level < 0 {
                    ApiCall::Volume(0)
                } else {
                    ApiCall::Volume(level as u8)
                }
            },
        }
    }

    /// The call that carries out a seek, if the seek does anything.
    pub fn seek(&self, dt: i64, mode: SeekMode, context: &Option<Context>) -> (r: Option<ApiCall>)
        ensures
            call_view(r) == seek_call(dt, mode, *context),
    {
        let progress: u64 = match context {
            Some(c) => match c.progress {
                Some(p) => p,
                None => 0,
            },
            None => 0,
        };
        let length: u64 = match context {
            Some(c) => match &c.item {
                Some(Playable::Track(track)) => track.duration,
                _ => 0,
            },
            None => 0,
        };
        match target_position(mode, dt, progress, length) {
            Some(target) => Some(ApiCall::Seek(target)),
            None => None,
        }
    }

    /// The index of the first playlist with the id `id`.
    pub fn find_by_id(&self, id: &String) -> (r: Option<usize>)
        ensures
            match r {
                Some(i) => is_first_with_id(infos_view(self.playlists@), id@, i as int),
                None => !has_id(infos_view(self.playlists@), id@),
            },
    {
        let mut i: usize = 0;
        while i < self.playlists.len()
            invariant
                i <= self.playlists@.len(),
                forall|j: int| 0 <= j < i ==> (#[trigger] infos_view(self.playlists@)[j]).id != id@,
            decreases self.playlists@.len() - i,
        {
            if self.playlists[i].id == *id {
                return Some(i);
            }
            i += 1;
        }
        None
    }

    /// The call that plays `tracklist` from its start; none where the
    /// backend knows no playlist of that id.
    pub fn set_tracklist(&self, tracklist: &PlaylistInfo) -> (r: Option<ApiCall>)
        ensures
            call_view(r) == if has_id(infos_view(self.playlists@), tracklist.id@) {
                Some(ApiCallView::StartPlaylist(tracklist.id@))
            } else {
                None
            },
    {
        match self.find_by_id(&tracklist.id) {
            Some(i) => {
                assert(infos_view(self.playlists@)[i as int].id == tracklist.id@);
                Some(ApiCall::StartPlaylist(self.playlists[i].id.clone()))
            },
            None => None,
        }
    }

    /// The call, if any, that carries out `action`.
    pub open spec fn player_call(
        &self,
        action: PlayerAction,
        context: Option<Context>,
    ) -> Option<ApiCallView> {
        match action {
            PlayerAction::PlayPause(target) => Some(playpause_call(target)),
            PlayerAction::PlayPauseToggle => Some(
                playpause_call(self.last_info.playback != Playback::Play),
            ),
            PlayerAction::Stop => Some(ApiCallView::Pause),
            PlayerAction::Shuffle(target) => Some(ApiCallView::Shuffle(target)),
            PlayerAction::ShuffleToggle => Some(ApiCallView::Shuffle(!self.shuffled)),
            PlayerAction::Autoplay(target) => Some(playpause_call(target)),
            PlayerAction::AutoplayToggle => Some(playpause_call(!self.autoplay)),
            PlayerAction::Seek { dt, mode } => seek_call(dt, mode, context),
            PlayerAction::Prev => Some(ApiCallView::Previous),
            PlayerAction::Next => Some(ApiCallView::Next),
            PlayerAction::SetVolume(volume) => Some(volume_call(volume, context)),
            PlayerAction::SetTrackList(tracklist) => if has_id(
                infos_view(self.playlists@),
                tracklist.id@,
            ) {
                Some(ApiCallView::StartPlaylist(tracklist.id@))
            } else {
                None
            },
            PlayerAction::SetRepeat(repeat) => Some(
                ApiCallView::Repeat(RepeatState::of_repeat(repeat)),
            ),
            PlayerAction::CycleRepeat => cycle_call(context),
        }
    }

    /// Whether shuffle is on after `action`.
    pub open spec fn shuffled_after(&self, action: PlayerAction) -> bool {
        match action {
            PlayerAction::Shuffle(target) => target,
            PlayerAction::ShuffleToggle => !self.shuffled,
            _ => self.shuffled,
        }
    }

    /// Whether autoplay is on after `action`.
    pub open spec fn autoplay_after(&self, action: PlayerAction) -> bool {
        match action {
            PlayerAction::Autoplay(target) => target,
            PlayerAction::AutoplayToggle => !self.autoplay,
            _ => self.autoplay,
        }
    }

    /// Whether `action` can only be carried out with a report of the
    /// service on the playback at hand.
    pub fn needs_context(action: &PlayerAction) -> (r: bool)
        ensures
            r == (action is Seek || action is SetVolume || action is CycleRepeat),
    {
        match action {
            PlayerAction::Seek { .. } => true,
            PlayerAction::SetVolume(_) => true,
            PlayerAction::CycleRepeat => true,
            _ => false,
        }
    }

    /// Carries out a playback intent: the call to make on the service, if
    /// any, with `context` as the report of the service on the playback.
    pub fn handle_player(&mut self, action: PlayerAction, context: &Option<Context>) -> (r: Option<
        ApiCall,
    >)
        ensures
            call_view(r) == old(self).player_call(action, *context),
            final(self).shuffled == old(self).shuffled_after(action),
            final(self).autoplay == old(self).autoplay_after(action),
            final(self).same_but_flags(old(self)),
    {
        match action {
            PlayerAction::PlayPause(target) => Some(self.playpause(target)),
            PlayerAction::PlayPauseToggle => Some(self.playpause_toggle()),
            PlayerAction::Stop => Some(ApiCall::Pause),
            PlayerAction::Shuffle(target) => Some(self.shuffle(target)),
            PlayerAction::ShuffleToggle => {
                let target: bool = !self.shuffled;
                Some(self.shuffle(target))
            },
            PlayerAction::Autoplay(target) => Some(self.autoplay(target)),
            PlayerAction::AutoplayToggle => {
                let target: bool = !self.autoplay;
                Some(self.autoplay(target))
            },
            PlayerAction::Seek { dt, mode } => self.seek(dt, mode, context),
            PlayerAction::Prev => Some(ApiCall::Previous),
            PlayerAction::Next => Some(ApiCall::Next),
            PlayerAction::SetVolume(volume) => Some(self.set_volume(volume, context)),
            PlayerAction::SetTrackList(tracklist) => self.set_tracklist(&tracklist),
            PlayerAction::SetRepeat(repeat) => Some(self.set_repeat(repeat)),
            PlayerAction::CycleRepeat => self.cycle_repeat(context),
        }
    }

    /// The snapshot of the player that a report of the service amounts to.
    pub open spec fn info_of(&self, context: Context, queue: Option<Vec<Playable>>) -> PlayerInfoView {
        PlayerInfoView {
            playback: if context.is_playing {
                Playback::Play
            } else {
                Playback::Pause
            },
            song_info: match context.item {
                Some(item) => Some(item.info_view()),
                None => None,
            },
            tracklist: match queue {
                Some(q) => PlaylistInfoView {
                    title: Seq::empty(),
                    length: q@.len(),
                    cover_url: Seq::empty(),
                    id: Seq::empty(),
                    songs: Seq::new(q@.len(), |i: int| q@[i].info_view()),
                },
                None => PlaylistInfo::empty_view(),
            },
            track_index: Some(0usize),
            shuffled: self.shuffled,
            autoplay: context.is_playing,
            repeat: context.repeat_state.as_repeat(),
            volume: (if volume_of(Some(context)) > 100 {
                100
            } else {
                volume_of(Some(context)) as int
            }) as u8,
            position: progress_of(Some(context)) as nat,
            can_seek: true,
        }
    }

    /// The snapshot of the player, from the report of the service on the
    /// playback and from the queue of the user. Without a report it is the
    /// snapshot that was given last.
    pub fn player_info(&mut self, context: &Option<Context>, queue: &Option<Vec<Playable>>) -> (r:
        PlayerInfo)
        ensures
            final(self).playlists == old(self).playlists,
            final(self).shuffled == old(self).shuffled,
            final(self).autoplay == old(self).autoplay,
            final(self).device == old(self).device,
            final(self).last_info@ == r@,
            r@ == match *context {
                Some(c) => old(self).info_of(c, *queue),
                None => old(self).last_info@,
            },
    {
        match context {
            None => self.last_info.clone(),
            Some(c) => {
                let volume: u32 = self.get_volume(context);
                let info = PlayerInfo {
                    playback: if c.is_playing {
                        Playback::Play
                    } else {
                        Playback::Pause
                    },
                    song_info: match &c.item {
                        Some(item) => Some(item.info()),
                        None => None,
                    },
                    tracklist: match queue {
                        Some(q) => queue_info(q),
                        None => PlaylistInfo::default(),
                    },
                    track_index: Some(0),
                    shuffled: self.shuffled,
                    autoplay: c.is_playing,
                    repeat: c.repeat_state.to_repeat(),
                    volume: if volume > 100 {
                        100
                    } else {
                        volume as u8
                    },
                    position: match c.progress {
                        Some(p) => p,
                        None => 0,
                    },
                    can_seek: true,
                };
                self.last_info = info.clone();
                info
            },
        }
    }

    /// The playlists, each as the front end knows it.
    pub fn playlist_infos(&self) -> (r: Vec<PlaylistInfo>)
        ensures
            playlists_view(r@) == infos_view(self.playlists@),
    {
        let mut out: Vec<PlaylistInfo> = Vec::new();
        let mut i: usize = 0;
        while i < self.playlists.len()
            invariant
                i <= self.playlists@.len(),
                out@.len() == i,
                forall|k: int| 0 <= k < i ==> out@[k]@ == self.playlists@[k].info_view(),
            decreases self.playlists@.len() - i,
        {
            out.push(self.playlists[i].get_info());
            i += 1;
        }
        assert(playlists_view(out@) =~= infos_view(self.playlists@));
        out
    }

    /// Whether the playlists have to be fetched from the service before
    /// `get` can be answered.
    pub fn needs_playlists(&self, get: &GetRequest) -> (r: bool)
        ensures
            r == (get is PlaylistList && self.playlists@.len() == 0),
    {
        match get {
            GetRequest::PlaylistList => self.playlists.len() == 0,
            _ => false,
        }
    }

    /// Takes in the playlists that the service lists, each without tracks
    /// yet.
    pub fn add_playlist(&mut self, playlist: PlaylistSummary)
        ensures
            final(self).playlists@.len() == old(self).playlists@.len() + 1,
            forall|i: int|
                0 <= i < old(self).playlists@.len() ==> final(self).playlists@[i] == old(
                    self,
                ).playlists@[i],
            final(self).playlists@.last().id == playlist.id,
            final(self).playlists@.last().title == playlist.name,
            final(self).playlists@.last().cover_url@ == first_or_empty(playlist.images@),
            final(self).playlists@.last().length == playlist.total,
            final(self).playlists@.last().songs@.len() == 0,
            final(self).shuffled == old(self).shuffled,
            final(self).autoplay == old(self).autoplay,
            final(self).last_info == old(self).last_info,
            final(self).device == old(self).device,
    {
        self.playlists.push(Playlist::new(playlist));
    }

    /// `self` and `answer` are what answering the query `get` makes of
    /// `before`.
    pub open spec fn get_answered(
        &self,
        before: &Backend,
        get: GetRequest,
        context: Option<Context>,
        queue: Option<Vec<Playable>>,
        answer: Answer,
    ) -> bool {
        &&& self.playlists == before.playlists
        &&& self.shuffled == before.shuffled
        &&& self.autoplay == before.autoplay
        &&& self.device == before.device
        &&& match get {
            GetRequest::PlaylistList => {
                &&& answer matches Answer::PlaylistList(lists)
                &&& playlists_view(lists@) == infos_view(before.playlists@)
                &&& self.last_info == before.last_info
            },
            GetRequest::Playlist(id) => {
                &&& answer matches Answer::Playlist(playlist)
                &&& forall|i: int|
                    is_first_with_id(infos_view(before.playlists@), id@, i) ==> playlist@
                        == before.playlists@[i].info_view()
                &&& !has_id(infos_view(before.playlists@), id@) ==> playlist@
                    == PlaylistInfo::empty_view()
                &&& self.last_info == before.last_info
            },
            GetRequest::PlayerInfo => {
                &&& answer matches Answer::PlayerInfo(info)
                &&& self.last_info@ == info@
                &&& info@ == match context {
                    Some(c) => before.info_of(c, queue),
                    None => before.last_info@,
                }
            },
        }
    }

    /// Answers a query. A playlist that the backend does not know is
    /// answered with the empty playlist.
    pub fn handle_get(
        &mut self,
        get: GetRequest,
        context: &Option<Context>,
        queue: &Option<Vec<Playable>>,
    ) -> (answer: Answer)
        ensures
            final(self).get_answered(old(self), get, *context, *queue, answer),
    {
        match get {
            GetRequest::PlaylistList => Answer::PlaylistList(self.playlist_infos()),
            GetRequest::Playlist(id) => {
                match self.find_by_id(&id) {
                    Some(i) => {
                        assert forall|j: int|
                            is_first_with_id(infos_view(self.playlists@), id@, j) implies j
                            == i by {
                            if j < i {
                                assert(infos_view(self.playlists@)[j].id != id@);
                            }
                            if i < j {
                                assert(infos_view(self.playlists@)[i as int].id != id@);
                            }
                        }
                        Answer::Playlist(self.playlists[i].get_info())
                    },
                    None => Answer::Playlist(PlaylistInfo::default()),
                }
            },
            GetRequest::PlayerInfo => Answer::PlayerInfo(self.player_info(context, queue)),
        }
    }

    /// The alert that lists `devices` by name, one to a line.
    pub fn devices_alert(devices: &Vec<Device>) -> (r: Widget)
        ensures
            r matches Widget::Alert { title, content } && title@ == "Spotify devices"@ && content@
                == joined(names_view(devices@), "\n"@),
    {
        let mut names: Vec<String> = Vec::new();
        let mut i: usize = 0;
        while i < devices.len()
            invariant
                i <= devices@.len(),
                names@.len() == i,
                forall|k: int| 0 <= k < i ==> names@[k]@ == devices@[k].name@,
            decreases devices@.len() - i,
        {
            names.push(devices[i].name.clone());
            i += 1;
        }
        assert(texts_view(names@) =~= names_view(devices@));
        Widget::Alert { title: "Spotify devices".to_owned(), content: join(&names, "\n") }
    }

    /// Selects the device that `words` name: with exactly three words, the
    /// first device named by the last word is selected, or none where no
    /// device has that name. With another number of words nothing changes.
    pub fn select_device(&mut self, words: &Vec<String>, devices: &Vec<Device>)
        ensures
            final(self).device_selected(old(self), texts_view(words@), devices@),
    {
        assert(texts_view(words@).len() == words@.len());
        if words.len() != 3 {
            return ;
        }
        assert(texts_view(words@)[2] == words@[2]@);
        match find_device_by_name(devices, &words[2]) {
            Some(i) => {
                assert forall|j: int| is_first_named(devices@, words@[2]@, j) implies j == i by {
                    if j < i {
                        assert(devices@[j].name@ != words@[2]@);
                    }
                    if i < j {
                        assert(devices@[i as int].name@ != words@[2]@);
                    }
                }
                assert(has_name(devices@, words@[2]@));
                self.device = Some(devices[i].clone());
            },
            None => {
                self.device = None;
            },
        }
    }

    /// `self` is `before` with the device that `words` name selected.
    pub open spec fn device_selected(
        &self,
        before: &Backend,
        words: Seq<Seq<char>>,
        devices: Seq<Device>,
    ) -> bool {
        &&& self.playlists == before.playlists
        &&& self.shuffled == before.shuffled
        &&& self.autoplay == before.autoplay
        &&& self.last_info == before.last_info
        &&& words.len() != 3 ==> self.device == before.device
        &&& words.len() == 3 ==> {
            &&& has_name(devices, words[2]) == self.device is Some
            &&& forall|i: int|
                is_first_named(devices, words[2], i) ==> self.device->0.name@ == devices[i].name@
                    && text_or_empty(self.device->0.id) == text_or_empty(devices[i].id)
                    && self.device->0.id is Some == devices[i].id is Some
        }
    }

    /// `self` and `answer` are what the command `command` makes of `before`.
    pub open spec fn commanded(
        &self,
        before: &Backend,
        command: Seq<char>,
        devices: Seq<Device>,
        answer: Option<Answer>,
    ) -> bool {
        match command_kind(command) {
            CommandKind::ListDevices => {
                &&& *self == *before
                &&& answer matches Some(Answer::Widget(Widget::Alert { title, content }))
                &&& title@ == "Spotify devices"@
                &&& content@ == joined(names_view(devices), "\n"@)
            },
            CommandKind::SelectDevice => {
                &&& answer is None
                &&& self.device_selected(before, whitespace_words(command), devices)
            },
            CommandKind::Unknown => {
                &&& *self == *before
                &&& answer is None
            },
        }
    }

    /// Carries out a command of the user. `devices list` is answered with
    /// an alert that lists the devices; a command that begins with
    /// `devices select` selects the device that its words name; anything
    /// else is ignored.
    pub fn handle_command(&mut self, command: &String, devices: &Vec<Device>) -> (answer: Option<
        Answer,
    >)
        ensures
            final(self).commanded(old(self), command@, devices@, answer),
    {
        let list: String = "devices list".to_owned();
        if *command == list {
            return Some(Answer::Widget(Backend::devices_alert(devices)));
        }
        if starts_with(command.as_str(), "devices select") {
            let words = split_words(command.as_str());
            self.select_device(&words, devices);
        }
        None
    }

    /// Answers a request: the call to make on the service, and the answer
    /// to send back, if any. A change to the content is not supported, and
    /// fails.
    pub fn handle_request(
        &mut self,
        request: Request,
        context: &Option<Context>,
        queue: &Option<Vec<Playable>>,
        devices: &Vec<Device>,
    ) -> (r: Result<Outcome, Error>)
        ensures
            r is Err == request is Modify,
            request is Modify ==> *final(self) == *old(self),
            match request {
                Request::PlayerAction(action) => {
                    &&& call_view(r->Ok_0.call) == old(self).player_call(action, *context)
                    &&& r->Ok_0.answer is None
                    &&& final(self).shuffled == old(self).shuffled_after(action)
                    &&& final(self).autoplay == old(self).autoplay_after(action)
                    &&& final(self).same_but_flags(old(self))
                },
                Request::Get(get) => {
                    &&& r->Ok_0.call is None
                    &&& r->Ok_0.answer is Some
                    &&& final(self).get_answered(old(self), get, *context, *queue, r->Ok_0.answer->0)
                },
                Request::Command(command) => {
                    &&& r->Ok_0.call is None
                    &&& final(self).commanded(old(self), command@, devices@, r->Ok_0.answer)
                },
                Request::Modify(_) => true,
            },
    {
        match request {
            Request::PlayerAction(action) => {
                let call = self.handle_player(action, context);
                Ok(Outcome { call, answer: None })
            },
            Request::Get(get) => {
                let answer = self.handle_get(get, context, queue);
                Ok(Outcome { call: None, answer: Some(answer) })
            },
            Request::Modify(_) => Err(Error),
            Request::Command(command) => {
                let answer = self.handle_command(&command, devices);
                Ok(Outcome { call: None, answer })
            },
        }
    }
}

/// What the backend decided on a request.
#[derive(Debug)]
pub struct Outcome {
    /// The call to make on the service.
    pub call: Option<ApiCall>,
    /// The answer to send back.
    pub answer: Option<Answer>,
}

} // verus!
