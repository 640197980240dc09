//! The shared vocabulary between the front end and the backends: requests,
//! answers and the snapshots they carry. Pure data with its conversions.
use vstd::prelude::*;

verus! {

/// How the `dt` of a seek is to be read.
#[derive(Debug, Clone, Copy, PartialEq, Eq, Structural)]
pub enum SeekMode {
    Absolute,
    Relative,
    AbsolutePercent,
    RelativePercent,
}

/// A volume change, to a level or by a signed step.
#[derive(Debug, Clone, Copy, PartialEq, Eq, Structural)]
pub enum Volume {
    Absolute(usize),
    Relative(isize),
}

/// What happens when the end of a track, or of the track list, is reached.
#[derive(Debug, Clone, Copy, PartialEq, Eq, Structural)]
pub enum Repeat {
    Off,
    Playlist,
    Song,
}

impl Default for Repeat {
    fn default() -> (r: Repeat)
        ensures
            r == Repeat::Off,
    {
        Repeat::Off
    }
}

impl Repeat {
    /// The mode that follows `self` in the cycle Off, Playlist, Song, Off.
    pub open spec fn cycled(self) -> Repeat {
        match self {
            Repeat::Off => Repeat::Playlist,
            Repeat::Playlist => Repeat::Song,
            Repeat::Song => Repeat::Off,
        }
    }

    /// Steps to the next mode of the cycle.
    pub fn cycle(self) -> (next: Repeat)
        ensures
            next == self.cycled(),
    {
        match self {
            Repeat::Off => Repeat::Playlist,
            Repeat::Playlist => Repeat::Song,
            Repeat::Song => Repeat::Off,
        }
    }

    /// The text shown for the mode.
    pub open spec fn label_spec(self) -> Seq<char> {
        match self {
            Repeat::Off => "Off"@,
            Repeat::Playlist => "Playlist"@,
            Repeat::Song => "Song"@,
        }
    }

    /// The text shown for the mode.
    pub fn label(&self) -> (text: String)
        ensures
            text@ == self.label_spec(),
    {
        match self {
            Repeat::Off => "Off".to_owned(),
            Repeat::Playlist => "Playlist".to_owned(),
            Repeat::Song => "Song".to_owned(),
        }
    }
}

/// Three steps of the repeat cycle lead back to the mode they started from.
pub proof fn lemma_cycle_repeat_has_period_three(repeat: Repeat)
    ensures
        repeat.cycled().cycled().cycled() == repeat,
        repeat.cycled() != repeat,
        repeat.cycled().cycled() != repeat,
{
}

/// Whether the player is stopped, playing or paused.
#[derive(Debug, Clone, Copy, PartialEq, Eq, Structural)]
pub enum Playback {
    Stop,
    Play,
    Pause,
}

impl Default for Playback {
    fn default() -> (r: Playback)
        ensures
            r == Playback::Stop,
    {
        Playback::Stop
    }
}

impl Playback {
    /// The text shown for the status.
    pub open spec fn label_spec(self) -> Seq<char> {
        match self {
            Playback::Stop => "Stopped"@,
            Playback::Pause => "Paused"@,
            Playback::Play => "Playing"@,
        }
    }

    /// The text shown for the status.
    pub fn label(&self) -> (text: String)
        ensures
            text@ == self.label_spec(),
    {
        match self {
            Playback::Stop => "Stopped".to_owned(),
            Playback::Pause => "Paused".to_owned(),
            Playback::Play => "Playing".to_owned(),
        }
    }
}

/// What a [`SongInfo`] stands for in contracts.
pub struct SongInfoView {
    pub title: Seq<char>,
    pub artist: Seq<char>,
    pub cover_url: Seq<char>,
    pub id: Seq<char>,
    pub url: Seq<char>,
    pub duration: nat,
}

/// One track. The empty value stands for a track that is unknown or unavailable.
#[derive(Debug, PartialEq, Eq)]
pub struct SongInfo {
    pub title: String,
    pub artist: String,
    pub cover_url: String,
    pub id: String,
    /// Where the track can be played from.
    pub url: String,
    /// Length of the track, in whole seconds.
    pub duration: u64,
}

impl View for SongInfo {
    type V = SongInfoView;

    open spec fn view(&self) -> SongInfoView {
        SongInfoView {
            title: self.title@,
            artist: self.artist@,
            cover_url: self.cover_url@,
            id: self.id@,
            url: self.url@,
            duration: self.duration as nat,
        }
    }
}

impl SongInfo {
    /// The empty track.
    pub open spec fn empty_view() -> SongInfoView {
        SongInfoView {
            title: Seq::empty(),
            artist: Seq::empty(),
            cover_url: Seq::empty(),
            id: Seq::empty(),
            url: Seq::empty(),
            duration: 0,
        }
    }

    /// Whether both values describe the same track, field by field.
    pub fn same(&self, other: &SongInfo) -> (r: bool)
        ensures
            r == (self@ == other@),
    {
        self.title == other.title && self.artist == other.artist && self.cover_url
            == other.cover_url && self.id == other.id && self.url == other.url && self.duration
            == other.duration
    }
}

impl Default for SongInfo {
    fn default() -> (r: SongInfo)
        ensures
            r@ == SongInfo::empty_view(),
    {
        SongInfo {
            title: String::new(),
            artist: String::new(),
            cover_url: String::new(),
            id: String::new(),
            url: String::new(),
            duration: 0,
        }
    }
}

impl Clone for SongInfo {
    fn clone(&self) -> (r: SongInfo)
        ensures
            r@ == self@,
    {
        SongInfo {
            title: self.title.clone(),
            artist: self.artist.clone(),
            cover_url: self.cover_url.clone(),
            id: self.id.clone(),
            url: self.url.clone(),
            duration: self.duration,
        }
    }
}

/// The tracks of `songs`, each by its view.
pub open spec fn songs_view(songs: Seq<SongInfo>) -> Seq<SongInfoView> {
    Seq::new(songs.len(), |i: int| songs[i]@)
}

/// Copies a list of tracks.
pub fn clone_songs(songs: &Vec<SongInfo>) -> (r: Vec<SongInfo>)
    ensures
        songs_view(r@) == songs_view(songs@),
        r@.len() == songs@.len(),
        forall|k: int| 0 <= k < r@.len() ==> (#[trigger] r@[k])@ == songs@[k]@,
{
    let mut out: Vec<SongInfo> = Vec::new();
    let mut i: usize = 0;
    while i < songs.len()
        invariant
            i <= songs.len(),
            out.len() == i,
            forall|k: int| 0 <= k < i ==> out[k]@ == songs[k]@,
        decreases songs.len() - i,
    {
        out.push(songs[i].clone());
        i += 1;
    }
    assert(songs_view(out@) =~= songs_view(songs@));
    out
}

/// What a [`PlaylistInfo`] stands for in contracts.
pub struct PlaylistInfoView {
    pub title: Seq<char>,
    pub length: nat,
    pub cover_url: Seq<char>,
    pub id: Seq<char>,
    pub songs: Seq<SongInfoView>,
}

/// A playlist as a backend reports it. `length` is the size the backend
/// announces, which may exceed the number of tracks loaded so far.
#[derive(Debug, PartialEq, Eq)]
pub struct PlaylistInfo {
    pub title: String,
    pub length: usize,
    pub cover_url: String,
    /// Identity of the playlist within its source.
    pub id: String,
    pub songs: Vec<SongInfo>,
}

impl View for PlaylistInfo {
    type V = PlaylistInfoView;

    open spec fn view(&self) -> PlaylistInfoView {
        PlaylistInfoView {
            title: self.title@,
            length: self.length as nat,
            cover_url: self.cover_url@,
            id: self.id@,
            songs: songs_view(self.songs@),
        }
    }
}

impl PlaylistInfo {
    /// The empty playlist.
    pub open spec fn empty_view() -> PlaylistInfoView {
        PlaylistInfoView {
            title: Seq::empty(),
            length: 0,
            cover_url: Seq::empty(),
            id: Seq::empty(),
            songs: Seq::empty(),
        }
    }

    /// No more tracks are loaded than the playlist announces.
    pub open spec fn well_formed(&self) -> bool {
        self.songs@.len() <= self.length
    }
}

impl Default for PlaylistInfo {
    fn default() -> (r: PlaylistInfo)
        ensures
            r@ == PlaylistInfo::empty_view(),
            r.well_formed(),
    {
        let r = PlaylistInfo {
            title: String::new(),
            length: 0,
            cover_url: String::new(),
            id: String::new(),
            songs: Vec::new(),
        };
        assert(r@.songs =~= Seq::empty());
        r
    }
}

impl Clone for PlaylistInfo {
    fn clone(&self) -> (r: PlaylistInfo)
        ensures
            r@ == self@,
            r.songs@.len() == self.songs@.len(),
    {
        PlaylistInfo {
            title: self.title.clone(),
            length: self.length,
            cover_url: self.cover_url.clone(),
            id: self.id.clone(),
            songs: clone_songs(&self.songs),
        }
    }
}

/// The playlists of `lists`, each by its view.
pub open spec fn playlists_view(lists: Seq<PlaylistInfo>) -> Seq<PlaylistInfoView> {
    Seq::new(lists.len(), |i: int| lists[i]@)
}

/// Copies a list of playlists.
pub fn clone_playlists(lists: &Vec<PlaylistInfo>) -> (r: Vec<PlaylistInfo>)
    ensures
        playlists_view(r@) == playlists_view(lists@),
        r@.len() == lists@.len(),
        forall|k: int| 0 <= k < r@.len() ==> (#[trigger] r@[k])@ == lists@[k]@,
        forall|k: int| 0 <= k < r@.len() ==> (#[trigger] r@[k]).songs@.len() == lists@[k].songs@.len(),
{
    let mut out: Vec<PlaylistInfo> = Vec::new();
    let mut i: usize = 0;
    while i < lists.len()
        invariant
            i <= lists.len(),
            out.len() == i,
            forall|k: int| 0 <= k < i ==> out[k]@ == lists[k]@,
            forall|k: int| 0 <= k < i ==> out[k].songs@.len() == lists[k].songs@.len(),
        decreases lists.len() - i,
    {
        out.push(lists[i].clone());
        i += 1;
    }
    assert(playlists_view(out@) =~= playlists_view(lists@));
    out
}

/// Every playback intent that can be sent to a backend.
#[derive(Debug, PartialEq, Eq)]
pub enum PlayerAction {
    PlayPause(bool),
    PlayPauseToggle,
    Stop,
    Shuffle(bool),
    ShuffleToggle,
    Autoplay(bool),
    AutoplayToggle,
    Seek { dt: i64, mode: SeekMode },
    Prev,
    Next,
    SetVolume(Volume),
    SetTrackList(PlaylistInfo),
    SetRepeat(Repeat),
    CycleRepeat,
}

/// What a [`PlayerAction`] stands for in contracts.
pub enum PlayerActionView {
    PlayPause(bool),
    PlayPauseToggle,
    Stop,
    Shuffle(bool),
    ShuffleToggle,
    Autoplay(bool),
    AutoplayToggle,
    Seek { dt: i64, mode: SeekMode },
    Prev,
    Next,
    SetVolume(Volume),
    SetTrackList(PlaylistInfoView),
    SetRepeat(Repeat),
    CycleRepeat,
}

impl View for PlayerAction {
    type V = PlayerActionView;

    open spec fn view(&self) -> PlayerActionView {
        match self {
            PlayerAction::PlayPause(target) => PlayerActionView::PlayPause(*target),
            PlayerAction::PlayPauseToggle => PlayerActionView::PlayPauseToggle,
            PlayerAction::Stop => PlayerActionView::Stop,
            PlayerAction::Shuffle(target) => PlayerActionView::Shuffle(*target),
            PlayerAction::ShuffleToggle => PlayerActionView::ShuffleToggle,
            PlayerAction::Autoplay(target) => PlayerActionView::Autoplay(*target),
            PlayerAction::AutoplayToggle => PlayerActionView::AutoplayToggle,
            PlayerAction::Seek { dt, mode } => PlayerActionView::Seek { dt: *dt, mode: *mode },
            PlayerAction::Prev => PlayerActionView::Prev,
            PlayerAction::Next => PlayerActionView::Next,
            PlayerAction::SetVolume(volume) => PlayerActionView::SetVolume(*volume),
            PlayerAction::SetTrackList(tracks) => PlayerActionView::SetTrackList(tracks@),
            PlayerAction::SetRepeat(repeat) => PlayerActionView::SetRepeat(*repeat),
            PlayerAction::CycleRepeat => PlayerActionView::CycleRepeat,
        }
    }
}

impl Clone for PlayerAction {
    fn clone(&self) -> (r: PlayerAction)
        ensures
            r@ == self@,
    {
        match self {
            PlayerAction::PlayPause(target) => PlayerAction::PlayPause(*target),
            PlayerAction::PlayPauseToggle => PlayerAction::PlayPauseToggle,
            PlayerAction::Stop => PlayerAction::Stop,
            PlayerAction::Shuffle(target) => PlayerAction::Shuffle(*target),
            PlayerAction::ShuffleToggle => PlayerAction::ShuffleToggle,
            PlayerAction::Autoplay(target) => PlayerAction::Autoplay(*target),
            PlayerAction::AutoplayToggle => PlayerAction::AutoplayToggle,
            PlayerAction::Seek { dt, mode } => PlayerAction::Seek { dt: *dt, mode: *mode },
            PlayerAction::Prev => PlayerAction::Prev,
            PlayerAction::Next => PlayerAction::Next,
            PlayerAction::SetVolume(volume) => PlayerAction::SetVolume(*volume),
            PlayerAction::SetTrackList(tracks) => PlayerAction::SetTrackList(tracks.clone()),
            PlayerAction::SetRepeat(repeat) => PlayerAction::SetRepeat(*repeat),
            PlayerAction::CycleRepeat => PlayerAction::CycleRepeat,
        }
    }
}

/// What a [`GetRequest`] stands for in contracts.
pub enum GetRequestView {
    PlaylistList,
    Playlist(Seq<char>),
    PlayerInfo,
}

/// A query for a backend's content or state.
#[derive(Debug, PartialEq, Eq)]
pub enum GetRequest {
    PlaylistList,
    /// The playlist with this id.
    Playlist(String),
    PlayerInfo,
}

impl View for GetRequest {
    type V = GetRequestView;

    open spec fn view(&self) -> GetRequestView {
        match self {
            GetRequest::PlaylistList => GetRequestView::PlaylistList,
            GetRequest::Playlist(id) => GetRequestView::Playlist(id@),
            GetRequest::PlayerInfo => GetRequestView::PlayerInfo,
        }
    }
}

impl Clone for GetRequest {
    fn clone(&self) -> (r: GetRequest)
        ensures
            r@ == self@,
    {
        match self {
            GetRequest::PlaylistList => GetRequest::PlaylistList,
            GetRequest::Playlist(id) => GetRequest::Playlist(id.clone()),
            GetRequest::PlayerInfo => GetRequest::PlayerInfo,
        }
    }
}

/// What a [`SetRequest`] stands for in contracts.
pub enum SetRequestView {
    AddSongToPlaylist { song: Seq<char>, playlist: Seq<char> },
    RemoveSongFromPlaylist { song: Seq<char>, playlist: Seq<char> },
}

/// A change to a backend's content.
#[derive(Debug, PartialEq, Eq)]
pub enum SetRequest {
    AddSongToPlaylist { song: String, playlist: String },
    RemoveSongFromPlaylist { song: String, playlist: String },
}

impl View for SetRequest {
    type V = SetRequestView;

    open spec fn view(&self) -> SetRequestView {
        match self {
            SetRequest::AddSongToPlaylist { song, playlist } => SetRequestView::AddSongToPlaylist {
                song: song@,
                playlist: playlist@,
            },
            SetRequest::RemoveSongFromPlaylist {
                song,
                playlist,
            } => SetRequestView::RemoveSongFromPlaylist { song: song@, playlist: playlist@ },
        }
    }
}

impl Clone for SetRequest {
    fn clone(&self) -> (r: SetRequest)
        ensures
            r@ == self@,
    {
        match self {
            SetRequest::AddSongToPlaylist { song, playlist } => SetRequest::AddSongToPlaylist {
                song: song.clone(),
                playlist: playlist.clone(),
            },
            SetRequest::RemoveSongFromPlaylist {
                song,
                playlist,
            } => SetRequest::RemoveSongFromPlaylist {
                song: song.clone(),
                playlist: playlist.clone(),
            },
        }
    }
}

/// What a [`Request`] stands for in contracts.
pub enum RequestView {
    PlayerAction(PlayerActionView),
    Get(GetRequestView),
    Modify(SetRequestView),
    Command(Seq<char>),
}

/// What the front end can ask of a backend.
#[derive(Debug, PartialEq, Eq)]
pub enum Request {
    PlayerAction(PlayerAction),
    Get(GetRequest),
    Modify(SetRequest),
    /// A line of free text for the backend to interpret.
    Command(String),
}

impl View for Request {
    type V = RequestView;

    open spec fn view(&self) -> RequestView {
        match self {
            Request::PlayerAction(action) => RequestView::PlayerAction(action@),
            Request::Get(get) => RequestView::Get(get@),
            Request::Modify(change) => RequestView::Modify(change@),
            Request::Command(text) => RequestView::Command(text@),
        }
    }
}

impl Clone for Request {
    fn clone(&self) -> (r: Request)
        ensures
            r@ == self@,
    {
        match self {
            Request::PlayerAction(action) => Request::PlayerAction(action.clone()),
            Request::Get(get) => Request::Get(get.clone()),
            Request::Modify(change) => Request::Modify(change.clone()),
            Request::Command(text) => Request::Command(text.clone()),
        }
    }
}

impl From<PlayerAction> for Request {
    fn from(value: PlayerAction) -> (r: Request)
        ensures
            r == Request::PlayerAction(value),
    {
        Request::PlayerAction(value)
    }
}

impl vstd::std_specs::convert::FromSpecImpl<PlayerAction> for Request {
    open spec fn obeys_from_spec() -> bool {
        true
    }

    open spec fn from_spec(value: PlayerAction) -> Request {
        Request::PlayerAction(value)
    }
}

impl From<GetRequest> for Request {
    fn from(value: GetRequest) -> (r: Request)
        ensures
            r == Request::Get(value),
    {
        Request::Get(value)
    }
}

impl vstd::std_specs::convert::FromSpecImpl<GetRequest> for Request {
    open spec fn obeys_from_spec() -> bool {
        true
    }

    open spec fn from_spec(value: GetRequest) -> Request {
        Request::Get(value)
    }
}

impl From<SetRequest> for Request {
    fn from(value: SetRequest) -> (r: Request)
        ensures
            r == Request::Modify(value),
    {
        Request::Modify(value)
    }
}

impl vstd::std_specs::convert::FromSpecImpl<SetRequest> for Request {
    open spec fn obeys_from_spec() -> bool {
        true
    }

    open spec fn from_spec(value: SetRequest) -> Request {
        Request::Modify(value)
    }
}

/// What a [`PlayerInfo`] stands for in contracts.
pub struct PlayerInfoView {
    pub playback: Playback,
    pub song_info: Option<SongInfoView>,
    pub tracklist: PlaylistInfoView,
    pub track_index: Option<usize>,
    pub shuffled: bool,
    pub autoplay: bool,
    pub repeat: Repeat,
    pub volume: u8,
    pub position: nat,
    pub can_seek: bool,
}

/// The view of an optional track.
pub open spec fn song_option_view(song: Option<SongInfo>) -> Option<SongInfoView> {
    match song {
        Some(s) => Some(s@),
        None => None,
    }
}

/// A complete snapshot of a backend's playback state at one moment. A newer
/// snapshot replaces an older one as a whole.
#[derive(Debug)]
pub struct PlayerInfo {
    /// Current playback status.
    pub playback: Playback,
    /// The track being played.
    pub song_info: Option<SongInfo>,
    pub tracklist: PlaylistInfo,
    /// Index of the current track in `tracklist`.
    pub track_index: Option<usize>,
    pub shuffled: bool,
    pub autoplay: bool,
    pub repeat: Repeat,
    /// From 0 to 100.
    pub volume: u8,
    /// Position within the current track, in whole seconds.
    pub position: u64,
    pub can_seek: bool,
}

impl View for PlayerInfo {
    type V = PlayerInfoView;

    open spec fn view(&self) -> PlayerInfoView {
        PlayerInfoView {
            playback: self.playback,
            song_info: song_option_view(self.song_info),
            tracklist: self.tracklist@,
            track_index: self.track_index,
            shuffled: self.shuffled,
            autoplay: self.autoplay,
            repeat: self.repeat,
            volume: self.volume,
            position: self.position as nat,
            can_seek: self.can_seek,
        }
    }
}

impl PlayerInfo {
    /// The snapshot of a player that has never been heard of.
    pub open spec fn empty_view() -> PlayerInfoView {
        PlayerInfoView {
            playback: Playback::Stop,
            song_info: None,
            tracklist: PlaylistInfo::empty_view(),
            track_index: None,
            shuffled: false,
            autoplay: false,
            repeat: Repeat::Off,
            volume: 0,
            position: 0,
            can_seek: false,
        }
    }
}

/// Copies an optional track.
pub fn clone_song_option(song: &Option<SongInfo>) -> (r: Option<SongInfo>)
    ensures
        song_option_view(r) == song_option_view(*song),
{
    match song {
        Some(s) => Some(s.clone()),
        None => None,
    }
}

impl Default for PlayerInfo {
    fn default() -> (r: PlayerInfo)
        ensures
            r@ == PlayerInfo::empty_view(),
    {
        PlayerInfo {
            playback: Playback::Stop,
            song_info: None,
            tracklist: PlaylistInfo::default(),
            track_index: None,
            shuffled: false,
            autoplay: false,
            repeat: Repeat::Off,
            volume: 0,
            position: 0,
            can_seek: false,
        }
    }
}

impl Clone for PlayerInfo {
    fn clone(&self) -> (r: PlayerInfo)
        ensures
            r@ == self@,
    {
        PlayerInfo {
            playback: self.playback,
            song_info: clone_song_option(&self.song_info),
            tracklist: self.tracklist.clone(),
            track_index: self.track_index,
            shuffled: self.shuffled,
            autoplay: self.autoplay,
            repeat: self.repeat,
            volume: self.volume,
            position: self.position,
            can_seek: self.can_seek,
        }
    }
}

/// The sending half of tokio's one-shot channel, through which the answer to a
/// dialog travels back to the backend that asked. The library only carries it.
#[verifier::external_type_specification]
#[verifier::external_body]
#[verifier::reject_recursive_types(T)]
pub struct ExOneshotSender<T>(tokio::sync::oneshot::Sender<T>);

/// A dialog that a backend asks the front end to show.
#[derive(Debug)]
#[allow(inconsistent_fields)]
pub enum Widget {
    Alert { title: String, content: String },
    Checkboxes {
        title: String,
        content: Vec<(bool, String)>,
        backchannel: tokio::sync::oneshot::Sender<Vec<(bool, String)>>,
    },
    Radioboxes {
        title: String,
        content: Vec<(bool, String)>,
        backchannel: tokio::sync::oneshot::Sender<usize>,
    },
    PromptBox {
        title: String,
        content: String,
        backchannel: tokio::sync::oneshot::Sender<String>,
    },
}

impl Widget {
    /// The title of the dialog.
    pub open spec fn title_spec(&self) -> Seq<char> {
        match self {
            Widget::Alert { title, .. } => title@,
            Widget::Checkboxes { title, .. } => title@,
            Widget::Radioboxes { title, .. } => title@,
            Widget::PromptBox { title, .. } => title@,
        }
    }

    /// Whether the dialog takes the keys typed while it is shown: every
    /// dialog but an alert does.
    pub fn captures_output(&self) -> (r: bool)
        ensures
            r == !(self is Alert),
    {
        match self {
            Widget::Alert { .. } => false,
            _ => true,
        }
    }

    /// The title of the dialog.
    pub fn title(&self) -> (r: &String)
        ensures
            r@ == self.title_spec(),
    {
        match self {
            Widget::Alert { title, .. } => title,
            Widget::Checkboxes { title, .. } => title,
            Widget::Radioboxes { title, .. } => title,
            Widget::PromptBox { title, .. } => title,
        }
    }
}

/// What a backend sends back. At most one backend answers a request.
#[derive(Debug)]
pub enum Answer {
    PlayerInfo(PlayerInfo),
    PlaylistList(Vec<PlaylistInfo>),
    Playlist(PlaylistInfo),
    Widget(Widget),
    /// The request was taken, and there is nothing to report.
    Done,
}

impl From<Widget> for Answer {
    fn from(value: Widget) -> (r: Answer)
        ensures
            r == Answer::Widget(value),
    {
        Answer::Widget(value)
    }
}

impl vstd::std_specs::convert::FromSpecImpl<Widget> for Answer {
    open spec fn obeys_from_spec() -> bool {
        true
    }

    open spec fn from_spec(value: Widget) -> Answer {
        Answer::Widget(value)
    }
}

} // verus!
