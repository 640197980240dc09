//! The backend of the video service: its songs and playlists, the rule by
//! which videos count as available, and the queue of work by which playlists
//! are loaded page by page.
use crate::protocol::{
    songs_view, Answer, GetRequest, PlaylistInfo, PlaylistInfoView, Request, SongInfo,
    SongInfoView, Widget,
};
use crate::text::{contains_text, or_empty, text_or_empty, texts_view};
use std::collections::VecDeque;
use vstd::prelude::*;

verus! {

/// The number of whole seconds that an ISO 8601 duration stands for: what
/// the crate iso8601_duration parses `text` to and counts in seconds. `None`
/// where `text` is no such duration, or one with years or months, which have
/// no fixed length.
pub uninterp spec fn iso8601_seconds(text: Seq<char>) -> Option<u64>;

/// Parses `text` with iso8601_duration's `Duration::parse` and counts the
/// seconds of the result with its `num_seconds`, dropping the fraction. The
/// contract gives the result a name and claims no more of it.
#[verifier::external_body]
fn parse_seconds(text: &str) -> (seconds: Option<u64>)
    ensures
        seconds == iso8601_seconds(text@),
{
    match text.parse::<iso8601_duration::Duration>() {
        Ok(duration) => match duration.num_seconds() {
            Some(seconds) => Some(seconds as u64),
            None => None,
        },
        Err(_) => None,
    }
}

/// One entry of a playlist as the service describes it.
#[derive(Debug, Clone, PartialEq, Eq)]
pub struct PlaylistItem {
    pub title: Option<String>,
    pub video_id: Option<String>,
    /// The name of the channel that owns the video.
    pub channel_title: Option<String>,
    /// The address of the default thumbnail.
    pub thumbnail_url: Option<String>,
}

/// What a [`Song`] stands for in contracts.
pub struct SongView {
    pub artist: Seq<char>,
    pub title: Seq<char>,
    pub id: Seq<char>,
    pub art_url: Seq<char>,
    pub duration: u64,
}

/// A song of the video service.
#[derive(Debug, PartialEq, Eq)]
pub struct Song {
    pub artist: String,
    pub title: String,
    pub id: String,
    pub art_url: String,
    /// Length of the song, in whole seconds.
    pub duration: u64,
}

impl View for Song {
    type V = SongView;

    open spec fn view(&self) -> SongView {
        SongView {
            artist: self.artist@,
            title: self.title@,
            id: self.id@,
            art_url: self.art_url@,
            duration: self.duration,
        }
    }
}

impl Clone for Song {
    fn clone(&self) -> (r: Song)
        ensures
            r@ == self@,
    {
        Song {
            artist: self.artist.clone(),
            title: self.title.clone(),
            id: self.id.clone(),
            art_url: self.art_url.clone(),
            duration: self.duration,
        }
    }
}

/// The address at which the video with the id `id` plays.
pub open spec fn video_url(id: Seq<char>) -> Seq<char> {
    "https://youtu.be/"@ + id
}

impl SongView {
    /// The song as the front end knows it.
    pub open spec fn info(self) -> SongInfoView {
        SongInfoView {
            title: self.title,
            artist: self.artist,
            cover_url: self.art_url,
            id: self.id,
            url: video_url(self.id),
            duration: self.duration as nat,
        }
    }
}

impl Song {
    /// The song that an entry of a playlist describes. What the entry does
    /// not say is empty; the length is not known yet.
    pub fn new(song: &PlaylistItem) -> (r: Song)
        ensures
            r@ == (SongView {
                artist: text_or_empty(song.channel_title),
                title: text_or_empty(song.title),
                id: text_or_empty(song.video_id),
                art_url: text_or_empty(song.thumbnail_url),
                duration: 0,
            }),
    {
        Song {
            title: or_empty(&song.title),
            id: or_empty(&song.video_id),
            art_url: or_empty(&song.thumbnail_url),
            artist: or_empty(&song.channel_title),
            duration: 0,
        }
    }

    /// The song as the front end knows it.
    pub fn info(&self) -> (r: SongInfo)
        ensures
            r@ == self@.info(),
    {
        SongInfo {
            title: self.title.clone(),
            artist: self.artist.clone(),
            cover_url: self.art_url.clone(),
            id: self.id.clone(),
            url: "https://youtu.be/".to_owned().concat(self.id.as_str()),
            duration: self.duration,
        }
    }

    /// The song with its length taken from what the service says of its
    /// video; a length that cannot be told counts as zero.
    pub fn with_duration(&self, seconds: Option<u64>) -> (r: Song)
        ensures
            r@ == (SongView {
                duration: match seconds {
                    Some(s) => s,
                    None => 0,
                },
                ..self@
            }),
    {
        Song {
            artist: self.artist.clone(),
            title: self.title.clone(),
            id: self.id.clone(),
            art_url: self.art_url.clone(),
            duration: match seconds {
                Some(s) => s,
                None => 0,
            },
        }
    }
}

/// The songs of `songs`, each by its view.
pub open spec fn yt_songs_view(songs: Seq<Song>) -> Seq<SongView> {
    Seq::new(songs.len(), |i: int| songs[i]@)
}

/// A video as the service describes it.
#[derive(Debug, Clone, PartialEq, Eq)]
pub struct Video {
    pub id: Option<String>,
    /// The regions in which the video is blocked, if it is blocked in any.
    pub blocked: Option<Vec<String>>,
    pub privacy_status: Option<String>,
    /// The length of the video, as an ISO 8601 duration.
    pub duration: Option<String>,
}

impl Video {
    /// Whether the video can be played: it is not blocked in France, and it
    /// is not private.
    pub open spec fn available(&self) -> bool {
        &&& match self.blocked {
            Some(blocked) => !texts_view(blocked@).contains("fr"@),
            None => true,
        }
        &&& match self.privacy_status {
            Some(privacy) => privacy@ != "private"@,
            None => true,
        }
    }

    /// The length of the video in whole seconds; zero where it cannot be told.
    pub open spec fn seconds(&self) -> u64 {
        match iso8601_seconds(text_or_empty(self.duration)) {
            Some(s) => s,
            None => 0,
        }
    }
}

/// Whether `video` can be played.
pub fn check_video_available(video: &Video) -> (r: bool)
    ensures
        r == video.available(),
{
    let mut available: bool = true;
    if let Some(blocked) = &video.blocked {
        let region: String = "fr".to_owned();
        available = available && !contains_text(blocked, &region);
    }
    if let Some(privacy) = &video.privacy_status {
        let private: String = "private".to_owned();
        available = available && !(*privacy == private);
    }
    available
}

/// The video at `i` is the first available one of `videos` with the id `id`.
pub open spec fn is_first_available(videos: Seq<Video>, id: Seq<char>, i: int) -> bool {
    &&& 0 <= i < videos.len()
    &&& videos[i].available()
    &&& text_or_empty(videos[i].id) == id
    &&& forall|j: int|
        0 <= j < i ==> !((#[trigger] videos[j]).available() && text_or_empty(videos[j].id) == id)
}

/// Some available video of `videos` has the id `id`.
pub open spec fn has_available(videos: Seq<Video>, id: Seq<char>) -> bool {
    exists|i: int|
        0 <= i < videos.len() && (#[trigger] videos[i]).available() && text_or_empty(videos[i].id)
            == id
}

/// The length, in whole seconds, that `videos` give for the id `id`: that of
/// the first available video with that id.
pub open spec fn seconds_for(videos: Seq<Video>, id: Seq<char>) -> u64
    recommends
        has_available(videos, id),
{
    videos[choose|i: int| is_first_available(videos, id, i)].seconds()
}

/// The songs of `songs` that `videos` show to be available, in their order
/// and each with the length that `videos` give for it.
pub open spec fn filtered(songs: Seq<SongView>, videos: Seq<Video>) -> Seq<SongView>
    decreases songs.len(),
{
    if songs.len() == 0 {
        Seq::empty()
    } else {
        let before = filtered(songs.drop_last(), videos);
        let song = songs.last();
        if has_available(videos, song.id) {
            before.push(SongView { duration: seconds_for(videos, song.id), ..song })
        } else {
            before
        }
    }
}

/// The index of the first available video of `videos` with the id `id`.
pub fn find_available(videos: &Vec<Video>, id: &String) -> (r: Option<usize>)
    ensures
        match r {
            Some(i) => is_first_available(videos@, id@, i as int),
            None => !has_available(videos@, id@),
        },
{
    let mut i: usize = 0;
    while i < videos.len()
        invariant
            i <= videos@.len(),
            forall|j: int|
                0 <= j < i ==> !((#[trigger] videos@[j]).available() && text_or_empty(
                    videos@[j].id,
                ) == id@),
        decreases videos@.len() - i,
    {
        if check_video_available(&videos[i]) {
            let video_id: String = or_empty(&videos[i].id);
            if video_id == *id {
                return Some(i);
            }
        }
        i += 1;
    }
    None
}

/// Only one video is the first available one with a given id.
pub proof fn lemma_first_available(videos: Seq<Video>, id: Seq<char>, i: int)
    requires
        is_first_available(videos, id, i),
    ensures
        has_available(videos, id),
        seconds_for(videos, id) == videos[i].seconds(),
{
    let j = choose|j: int| is_first_available(videos, id, j);
    if i < j {
        assert(!(videos[i].available() && text_or_empty(videos[i].id) == id));
    }
    if j < i {
        assert(!(videos[j].available() && text_or_empty(videos[j].id) == id));
    }
}

/// Keeps the songs of `songs` that `videos` show to be available, and gives
/// each the length of its video.
pub fn filter(songs: &Vec<Song>, videos: &Vec<Video>) -> (r: Vec<Song>)
    ensures
        yt_songs_view(r@) == filtered(yt_songs_view(songs@), videos@),
{
    let mut out: Vec<Song> = Vec::new();
    let mut i: usize = 0;
    assert(yt_songs_view(songs@).take(0) =~= Seq::<SongView>::empty());
    assert(yt_songs_view(out@) =~= filtered(yt_songs_view(songs@).take(0), videos@));
    while i < songs.len()
        invariant
            i <= songs@.len(),
            yt_songs_view(out@) == filtered(yt_songs_view(songs@).take(i as int), videos@),
        decreases songs@.len() - i,
    {
        let ghost before = yt_songs_view(out@);
        proof {
            let now = yt_songs_view(songs@).take(i + 1);
            assert(now.drop_last() =~= yt_songs_view(songs@).take(i as int));
            assert(now.last() == songs@[i as int]@);
        }
        match find_available(videos, &songs[i].id) {
            Some(v) => {
                proof {
                    lemma_first_available(videos@, songs@[i as int].id@, v as int);
                }
                let seconds = parse_seconds(or_empty(&videos[v].duration).as_str());
                let song = songs[i].with_duration(seconds);
                out.push(song);
                assert(yt_songs_view(out@) =~= before.push(song@));
            },
            None => {},
        }
        i += 1;
    }
    assert(yt_songs_view(songs@).take(songs@.len() as int) =~= yt_songs_view(songs@));
    out
}

/// A playlist as the service lists it.
#[derive(Debug, Clone, PartialEq, Eq)]
pub struct PlaylistMeta {
    pub id: Option<String>,
    pub title: Option<String>,
    /// The number of entries that the service announces.
    pub item_count: Option<u32>,
    /// The address of the default thumbnail.
    pub thumbnail_url: Option<String>,
}

/// A playlist of the video service, loaded page by page.
#[derive(Debug)]
pub struct Playlist {
    pub title: String,
    pub id: String,
    pub length: usize,
    pub songs: Vec<Song>,
    pub art_url: String,
    /// The token of the page to load next: the empty text before the first
    /// page, and none once the last page is loaded.
    pub next_page_token: Option<String>,
    /// The place of the playlist in the list that is shown.
    pub index: usize,
}

/// What a [`Playlist`] stands for in contracts.
pub struct PlaylistView {
    pub title: Seq<char>,
    pub id: Seq<char>,
    pub length: usize,
    pub songs: Seq<SongView>,
    pub art_url: Seq<char>,
    pub next_page_token: Option<Seq<char>>,
    pub index: usize,
}

impl View for Playlist {
    type V = PlaylistView;

    open spec fn view(&self) -> PlaylistView {
        PlaylistView {
            title: self.title@,
            id: self.id@,
            length: self.length,
            songs: yt_songs_view(self.songs@),
            art_url: self.art_url@,
            next_page_token: match self.next_page_token {
                Some(token) => Some(token@),
                None => None,
            },
            index: self.index,
        }
    }
}

/// The playlists of `lists`, each by its view.
pub open spec fn lists_view(lists: Seq<Playlist>) -> Seq<PlaylistView> {
    Seq::new(lists.len(), |i: int| lists[i]@)
}

/// The playlist that the service lists as `meta`, at the place `index`,
/// before any of its pages is loaded.
pub open spec fn fresh(meta: PlaylistMeta, index: usize) -> PlaylistView {
    PlaylistView {
        title: text_or_empty(meta.title),
        id: text_or_empty(meta.id),
        length: match meta.item_count {
            Some(n) => n as usize,
            None => 0,
        },
        songs: Seq::empty(),
        art_url: text_or_empty(meta.thumbnail_url),
        next_page_token: Some(Seq::empty()),
        index,
    }
}

/// `lists` with `playlist` taken in: it takes the place of the first
/// playlist of the same id, or is added at the end where there is none.
pub open spec fn put(lists: Seq<PlaylistView>, playlist: PlaylistView) -> Seq<PlaylistView>
    decreases lists.len(),
{
    if lists.len() == 0 {
        seq![playlist]
    } else if lists[0].id == playlist.id {
        seq![playlist] + lists.drop_first()
    } else {
        seq![lists[0]] + put(lists.drop_first(), playlist)
    }
}

/// `lists` with the playlists that the service lists as `metas` taken in
/// one after the other, at the places from `from` on.
pub open spec fn put_all(lists: Seq<PlaylistView>, metas: Seq<PlaylistMeta>, from: nat) -> Seq<
    PlaylistView,
>
    decreases metas.len(),
{
    if metas.len() == 0 {
        lists
    } else {
        put(
            put_all(lists, metas.drop_last(), from),
            fresh(metas.last(), (from + metas.len() - 1) as usize),
        )
    }
}

/// Taking in a playlist whose id is that of the playlist at `i`, and of none
/// before it, puts it at `i`.
pub proof fn lemma_put_replaces(lists: Seq<PlaylistView>, playlist: PlaylistView, i: int)
    requires
        0 <= i < lists.len(),
        lists[i].id == playlist.id,
        forall|j: int| 0 <= j < i ==> (#[trigger] lists[j]).id != playlist.id,
    ensures
        put(lists, playlist) == lists.update(i, playlist),
    decreases lists.len(),
{
    if i == 0 {
        assert(put(lists, playlist) =~= lists.update(0, playlist));
    } else {
        assert(lists[0].id != playlist.id);
        let rest = lists.drop_first();
        assert forall|j: int| 0 <= j < i - 1 implies (#[trigger] rest[j]).id != playlist.id by {
            assert(rest[j] == lists[j + 1]);
        }
        lemma_put_replaces(rest, playlist, i - 1);
        assert(put(lists, playlist) =~= lists.update(i, playlist));
    }
}

/// Taking in a playlist whose id no playlist has adds it at the end.
pub proof fn lemma_put_appends(lists: Seq<PlaylistView>, playlist: PlaylistView)
    requires
        forall|j: int| 0 <= j < lists.len() ==> (#[trigger] lists[j]).id != playlist.id,
    ensures
        put(lists, playlist) == lists.push(playlist),
    decreases lists.len(),
{
    if lists.len() == 0 {
        assert(put(lists, playlist) =~= lists.push(playlist));
    } else {
        assert(lists[0].id != playlist.id);
        let rest = lists.drop_first();
        assert forall|j: int| 0 <= j < rest.len() implies (#[trigger] rest[j]).id
            != playlist.id by {
            assert(rest[j] == lists[j + 1]);
        }
        lemma_put_appends(rest, playlist);
        assert(put(lists, playlist) =~= lists.push(playlist));
    }
}

impl Playlist {
    /// The songs of the playlist, each as the front end knows it.
    pub open spec fn songs_info(&self) -> Seq<SongInfoView> {
        Seq::new(self.songs@.len(), |i: int| self.songs@[i]@.info())
    }

    /// The playlist as the front end knows it.
    pub open spec fn info_view(&self) -> PlaylistInfoView {
        PlaylistInfoView {
            title: self.title@,
            length: self.length as nat,
            cover_url: self.art_url@,
            id: self.id@,
            songs: self.songs_info(),
        }
    }

    /// Whether the last page is loaded.
    pub open spec fn loaded(&self) -> bool {
        self.next_page_token is None
    }

    /// A playlist of which no page is loaded yet, from what the service
    /// lists. What the service does not say is empty; without a place it
    /// comes first.
    pub fn new(playlist: &PlaylistMeta, index: Option<usize>) -> (r: Playlist)
        ensures
            r@ == fresh(
                *playlist,
                match index {
                    Some(i) => i,
                    None => 0,
                },
            ),
            r.title@ == text_or_empty(playlist.title),
            r.id@ == text_or_empty(playlist.id),
            r.art_url@ == text_or_empty(playlist.thumbnail_url),
            r.length == match playlist.item_count {
                Some(n) => n as usize,
                None => 0,
            },
            r.songs@.len() == 0,
            r.next_page_token is Some && r.next_page_token->0@ == Seq::<char>::empty(),
            r.index == match index {
                Some(i) => i,
                None => 0,
            },
    {
        let r = Playlist {
            title: or_empty(&playlist.title),
            id: or_empty(&playlist.id),
            length: match playlist.item_count {
                Some(n) => n as usize,
                None => 0,
            },
            songs: Vec::new(),
            art_url: or_empty(&playlist.thumbnail_url),
            next_page_token: Some(String::new()),
            index: match index {
                Some(i) => i,
                None => 0,
            },
        };
        assert(r@.songs =~= Seq::<SongView>::empty());
        r
    }

    /// The id of the playlist.
    pub fn id(&self) -> (r: String)
        ensures
            r@ == self.id@,
    {
        self.id.clone()
    }

    /// The songs of the playlist, each as the front end knows it.
    pub fn vec_songs_info(&self) -> (r: Vec<SongInfo>)
        ensures
            songs_view(r@) == self.songs_info(),
    {
        let mut out: Vec<SongInfo> = Vec::new();
        let mut i: usize = 0;
        while i < self.songs.len()
            invariant
                i <= self.songs@.len(),
                out@.len() == i,
                forall|k: int| 0 <= k < i ==> out@[k]@ == self.songs@[k]@.info(),
            decreases self.songs@.len() - i,
        {
            out.push(self.songs[i].info());
            i += 1;
        }
        assert(songs_view(out@) =~= self.songs_info());
        out
    }

    /// The playlist as the front end knows it.
    pub fn info(&self) -> (r: PlaylistInfo)
        ensures
            r@ == self.info_view(),
    {
        PlaylistInfo {
            title: self.title.clone(),
            id: self.id.clone(),
            length: self.length,
            cover_url: self.art_url.clone(),
            songs: self.vec_songs_info(),
        }
    }

    /// Whether the last page is loaded.
    pub fn is_loaded(&self) -> (r: bool)
        ensures
            r == self.loaded(),
    {
        self.next_page_token.is_none()
    }

    /// Takes in one page of the playlist: the songs of the page that
    /// `videos` show to be available are added, and `next` is the token of
    /// the page after it. With the last page the playlist is as long as the
    /// songs it holds. A playlist that is loaded takes no page.
    pub fn add_page(&mut self, items: &Vec<PlaylistItem>, videos: &Vec<Video>, next: Option<String>)
        ensures
            final(self).title == old(self).title,
            final(self).id == old(self).id,
            final(self).art_url == old(self).art_url,
            final(self).index == old(self).index,
            old(self).loaded() ==> *final(self) == *old(self),
            !old(self).loaded() ==> {
                &&& final(self).next_page_token == next
                &&& yt_songs_view(final(self).songs@) == yt_songs_view(old(self).songs@) + filtered(
                    Seq::new(items@.len(), |i: int| page_song(items@[i])),
                    videos@,
                )
                &&& final(self).length == if next is None {
                    final(self).songs@.len()
                } else {
                    old(self).length as nat
                }
            },
    {
        if self.is_loaded() {
            return ;
        }
        let mut fresh: Vec<Song> = Vec::new();
        let mut i: usize = 0;
        while i < items.len()
            invariant
                i <= items@.len(),
                fresh@.len() == i,
                forall|k: int| 0 <= k < i ==> fresh@[k]@ == page_song(items@[k]),
            decreases items@.len() - i,
        {
            fresh.push(Song::new(&items[i]));
            i += 1;
        }
        assert(yt_songs_view(fresh@) =~= Seq::new(items@.len(), |i: int| page_song(items@[i])));
        let kept = filter(&fresh, videos);
        let ghost added = yt_songs_view(kept@);
        let ghost before = yt_songs_view(self.songs@);
        let mut j: usize = 0;
        while j < kept.len()
            invariant
                j <= kept@.len(),
                yt_songs_view(kept@) == added,
                yt_songs_view(self.songs@) == before + added.take(j as int),
                self.title == old(self).title,
                self.id == old(self).id,
                self.art_url == old(self).art_url,
                self.index == old(self).index,
                self.length == old(self).length,
                self.next_page_token == old(self).next_page_token,
            decreases kept@.len() - j,
        {
            let ghost so_far = yt_songs_view(self.songs@);
            let song = kept[j].clone();
            assert(song@ == added[j as int]);
            self.songs.push(song);
            assert(yt_songs_view(self.songs@) =~= so_far.push(song@));
            assert(added.take(j + 1) =~= added.take(j as int).push(added[j as int]));
            assert(so_far.push(song@) =~= before + added.take(j + 1));
            j += 1;
        }
        assert(added.take(kept@.len() as int) =~= added);
        self.next_page_token = next;
        if self.next_page_token.is_none() {
            self.length = self.songs.len();
        }
    }
}

/// The song that an entry of a playlist describes.
pub open spec fn page_song(item: PlaylistItem) -> SongView {
    SongView {
        artist: text_or_empty(item.channel_title),
        title: text_or_empty(item.title),
        id: text_or_empty(item.video_id),
        art_url: text_or_empty(item.thumbnail_url),
        duration: 0,
    }
}

/// What can be asked of one playlist.
#[derive(Debug, Clone, Copy, PartialEq, Eq, Structural)]
pub enum ActionPlaylist {
    /// Load every page that is not loaded yet.
    LoadAll,
    /// Load one page only.
    LoadPage,
}

/// What can be asked of the list of playlists.
#[derive(Debug, PartialEq, Eq)]
pub enum ActionPlaylistList {
    FetchPage(String),
    FetchAll,
}

/// One piece of work for the backend.
#[derive(Debug)]
pub enum Task {
    PlaylistList(ActionPlaylistList),
    /// Work on the playlist with this id.
    Playlist(String, ActionPlaylist),
    /// A request of the front end.
    Command(Request),
}

/// What a [`Task`] stands for in contracts.
pub enum TaskView {
    PlaylistList(ActionPlaylistList),
    Playlist(Seq<char>, ActionPlaylist),
    Command(crate::protocol::RequestView),
}

impl View for Task {
    type V = TaskView;

    open spec fn view(&self) -> TaskView {
        match self {
            Task::PlaylistList(action) => TaskView::PlaylistList(*action),
            Task::Playlist(id, action) => TaskView::Playlist(id@, *action),
            Task::Command(request) => TaskView::Command(request@),
        }
    }
}

/// The tasks of `tasks`, each by its view.
pub open spec fn tasks_view(tasks: Seq<Task>) -> Seq<TaskView> {
    Seq::new(tasks.len(), |i: int| tasks[i]@)
}

/// What the caller has to do for the backend, outside of it.
#[derive(Debug)]
pub enum Work {
    /// Nothing.
    Nothing,
    /// Send this answer to the front end.
    Send(Answer),
    /// Fetch the playlists of the user from the service, and hand them in
    /// with [`Backend::set_catalog`].
    FetchPlaylists,
    /// Fetch the page with this token of the playlist with this id, and the
    /// videos of its entries, and hand them in with
    /// [`Backend::page_loaded`].
    FetchPage { id: String, token: String },
    /// The request asks for what this backend cannot do; it is given up.
    Unsupported,
}

/// `order` lists the playlists of `lists` by ascending place.
pub open spec fn sorted_by_index(lists: Seq<Playlist>, order: Seq<usize>) -> bool {
    forall|i: int, j: int|
        0 <= i < j < order.len() ==> lists[(#[trigger] order[i]) as int].index <= lists[(
        #[trigger] order[j]) as int].index
}

/// `listing` shows every playlist of `lists` once, by ascending place.
pub open spec fn is_listing(lists: Seq<Playlist>, listing: Seq<PlaylistInfoView>) -> bool {
    exists|order: Seq<usize>|
        #![auto]
        {
            &&& crate::playlist::is_play_order(order, lists.len())
            &&& sorted_by_index(lists, order)
            &&& listing.len() == lists.len()
            &&& forall|i: int|
                0 <= i < listing.len() ==> listing[i] == lists[order[i] as int].info_view()
        }
}

/// The alert shown when the user is sent to the browser to sign in.
pub fn connect_alert() -> (r: Widget)
    ensures
        r matches Widget::Alert { title, content } && title@ == "Connect to Youtube"@ && content@
            == "Go to your browser to authenticate"@,
{
    Widget::Alert {
        title: "Connect to Youtube".to_owned(),
        content: "Go to your browser to authenticate".to_owned(),
    }
}

/// What the user is told where the browser could not be opened.
pub open spec fn sign_in_message(url: Seq<char>, need_code: bool) -> Seq<char> {
    if need_code {
        "Inputting code to authenticate not supported"@
    } else {
        "Please direct your browser to "@ + url
            + " and follow the instructions displayed there."@
    }
}

/// What is shown after the attempt to open the browser at `url`: nothing
/// where the browser opened, and otherwise an alert that tells the user
/// where to go.
pub fn present_user_url(url: &str, need_code: bool, opened: bool) -> (r: Option<Widget>)
    ensures
        opened ==> r is None,
        !opened ==> (r matches Some(Widget::Alert { title, content }) && title@
            == "Youtube authentication"@ && content@ == sign_in_message(url@, need_code)),
{
    if opened {
        return None;
    }
    let message: String = if need_code {
        "Inputting code to authenticate not supported".to_owned()
    } else {
        "Please direct your browser to ".to_owned().concat(url).concat(
            " and follow the instructions displayed there.",
        )
    };
    Some(Widget::Alert { title: "Youtube authentication".to_owned(), content: message })
}

/// The state of the backend.
#[derive(Debug)]
pub struct Backend {
    /// The playlists, no two with the same id.
    pub playlists: Vec<Playlist>,
    pub all_playlist_fetched: bool,
    /// The work that waits, the next piece first.
    pub tasks: VecDeque<Task>,
}

impl Backend {
    /// No two playlists have the same id.
    pub open spec fn well_formed(&self) -> bool {
        forall|i: int, j: int|
            0 <= i < j < self.playlists@.len() ==> (#[trigger] self.playlists@[i]).id@ != (
            #[trigger] self.playlists@[j]).id@
    }

    /// The index of the playlist with the id `id`, if there is one.
    pub open spec fn position(&self, id: Seq<char>) -> Option<int> {
        if exists|i: int| 0 <= i < self.playlists@.len() && (#[trigger] self.playlists@[i]).id@ == id {
            Some(
                choose|i: int|
                    0 <= i < self.playlists@.len() && (#[trigger] self.playlists@[i]).id@ == id,
            )
        } else {
            None
        }
    }

    /// A backend that knows no playlist and has no work.
    pub fn new() -> (r: Backend)
        ensures
            r.well_formed(),
            r.playlists@.len() == 0,
            !r.all_playlist_fetched,
            r.tasks@.len() == 0,
    {
        Backend { playlists: Vec::new(), all_playlist_fetched: false, tasks: VecDeque::new() }
    }

    /// The index of the playlist with the id `id`.
    pub fn find(&self, id: &String) -> (r: Option<usize>)
        ensures
            match r {
                Some(i) => i < self.playlists@.len() && self.playlists@[i as int].id@ == id@,
                None => forall|i: int|
                    0 <= i < self.playlists@.len() ==> (#[trigger] self.playlists@[i]).id@ != id@,
            },
            self.well_formed() ==> match r {
                Some(i) => self.position(id@) == Some(i as int),
                None => self.position(id@) is None,
            },
    {
        let mut i: usize = 0;
        while i < self.playlists.len()
            invariant
                i <= self.playlists@.len(),
                forall|k: int| 0 <= k < i ==> (#[trigger] self.playlists@[k]).id@ != id@,
            decreases self.playlists@.len() - i,
        {
            if self.playlists[i].id == *id {
                proof {
                    if self.well_formed() {
                        let j = choose|j: int|
                            0 <= j < self.playlists@.len() && (#[trigger] self.playlists@[j]).id@
                                == id@;
                        if j < i {
                            assert(self.playlists@[j].id@ != self.playlists@[i as int].id@);
                        }
                        if i < j {
                            assert(self.playlists@[i as int].id@ != self.playlists@[j].id@);
                        }
                    }
                }
                return Some(i);
            }
            i += 1;
        }
        None
    }

    /// Takes in a playlist: it takes the place of the playlist of the same
    /// id, or is added where there is none.
    pub fn insert(&mut self, playlist: Playlist)
        requires
            old(self).well_formed(),
        ensures
            final(self).well_formed(),
            final(self).all_playlist_fetched == old(self).all_playlist_fetched,
            final(self).tasks == old(self).tasks,
            final(self).playlists@ == match old(self).position(playlist.id@) {
                Some(i) => old(self).playlists@.update(i, playlist),
                None => old(self).playlists@.push(playlist),
            },
            lists_view(final(self).playlists@) == put(lists_view(old(self).playlists@), playlist@),
    {
        let ghost before = lists_view(self.playlists@);
        match self.find(&playlist.id) {
            Some(i) => {
                proof {
                    assert forall|j: int| 0 <= j < i implies (#[trigger] before[j]).id
                        != playlist@.id by {
                        assert(self.playlists@[j].id@ != self.playlists@[i as int].id@);
                    }
                    lemma_put_replaces(before, playlist@, i as int);
                }
                self.playlists.set(i, playlist);
                assert(lists_view(self.playlists@) =~= before.update(i as int, playlist@));
            },
            None => {
                proof {
                    assert forall|j: int| 0 <= j < before.len() implies (#[trigger] before[j]).id
                        != playlist@.id by {
                        assert(self.playlists@[j].id@ != playlist.id@);
                    }
                    lemma_put_appends(before, playlist@);
                }
                self.playlists.push(playlist);
                assert(lists_view(self.playlists@) =~= before.push(playlist@));
            },
        }
    }

    /// Takes in the playlists of the user as the service lists them: the
    /// one of liked videos at the first place, the others at the places
    /// after it, in their order. This is done once: later lists are dropped.
    pub fn set_catalog(&mut self, liked: &Option<PlaylistMeta>, mine: &Vec<PlaylistMeta>)
        requires
            old(self).well_formed(),
        ensures
            final(self).well_formed(),
            final(self).all_playlist_fetched,
            final(self).tasks == old(self).tasks,
            old(self).all_playlist_fetched ==> final(self).playlists == old(self).playlists,
            !old(self).all_playlist_fetched ==> lists_view(final(self).playlists@) == put_all(
                match *liked {
                    Some(meta) => put(lists_view(old(self).playlists@), fresh(meta, 0)),
                    None => lists_view(old(self).playlists@),
                },
                mine@,
                1,
            ),
    {
        if self.all_playlist_fetched {
            return ;
        }
        if let Some(meta) = liked {
            let playlist = Playlist::new(meta, Some(0));
            self.insert(playlist);
        }
        let ghost start = lists_view(self.playlists@);
        let mut k: usize = 0;
        assert(mine@.take(0) =~= Seq::<PlaylistMeta>::empty());
        while k < mine.len()
            invariant
                k <= mine@.len(),
                self.well_formed(),
                self.tasks == old(self).tasks,
                self.all_playlist_fetched == old(self).all_playlist_fetched,
                lists_view(self.playlists@) == put_all(start, mine@.take(k as int), 1),
            decreases mine@.len() - k,
        {
            proof {
                let now = mine@.take(k + 1);
                assert(now.drop_last() =~= mine@.take(k as int));
                assert(now.last() == mine@[k as int]);
            }
            // the first place is kept for the liked videos
            let playlist = Playlist::new(&mine[k], Some(k + 1));
            self.insert(playlist);
            k += 1;
        }
        assert(mine@.take(mine@.len() as int) =~= mine@);
        self.all_playlist_fetched = true;
    }

    /// Adds a piece of work at the end of the queue.
    pub fn enqueue(&mut self, task: Task)
        ensures
            final(self).tasks@ == old(self).tasks@.push(task),
            final(self).playlists == old(self).playlists,
            final(self).all_playlist_fetched == old(self).all_playlist_fetched,
    {
        self.tasks.push_back(task);
    }

    /// Queues the loading of every playlist.
    pub fn load_all_playlists(&mut self)
        ensures
            final(self).playlists == old(self).playlists,
            final(self).all_playlist_fetched == old(self).all_playlist_fetched,
            tasks_view(final(self).tasks@) == tasks_view(old(self).tasks@) + Seq::new(
                old(self).playlists@.len(),
                |i: int| TaskView::Playlist(old(self).playlists@[i].id@, ActionPlaylist::LoadAll),
            ),
    {
        let ghost before = tasks_view(self.tasks@);
        let ghost added = Seq::new(
            self.playlists@.len(),
            |i: int| TaskView::Playlist(self.playlists@[i].id@, ActionPlaylist::LoadAll),
        );
        let mut i: usize = 0;
        assert(tasks_view(self.tasks@) =~= before + added.take(0));
        while i < self.playlists.len()
            invariant
                i <= self.playlists@.len(),
                self.playlists == old(self).playlists,
                self.all_playlist_fetched == old(self).all_playlist_fetched,
                added == Seq::new(
                    self.playlists@.len(),
                    |i: int| TaskView::Playlist(self.playlists@[i].id@, ActionPlaylist::LoadAll),
                ),
                tasks_view(self.tasks@) == before + added.take(i as int),
            decreases self.playlists@.len() - i,
        {
            let ghost so_far = tasks_view(self.tasks@);
            let task = Task::Playlist(self.playlists[i].id.clone(), ActionPlaylist::LoadAll);
            self.tasks.push_back(task);
            assert(tasks_view(self.tasks@) =~= so_far.push(task@));
            assert(added.take(i + 1) =~= added.take(i as int).push(added[i as int]));
            assert(so_far.push(task@) =~= before + added.take(i + 1));
            i += 1;
        }
        assert(added.take(self.playlists@.len() as int) =~= added);
    }

    /// The positions of the playlists, by ascending place; playlists of the
    /// same place keep their order.
    pub fn order_by_index(&self) -> (order: Vec<usize>)
        ensures
            crate::playlist::is_play_order(order@, self.playlists@.len()),
            sorted_by_index(self.playlists@, order@),
    {
        let mut order: Vec<usize> = Vec::new();
        let mut k: usize = 0;
        while k < self.playlists.len()
            invariant
                k <= self.playlists@.len(),
                order@.len() == k,
                forall|i: int| 0 <= i < order@.len() ==> (#[trigger] order@[i]) < k,
                order@.no_duplicates(),
                sorted_by_index(self.playlists@, order@),
            decreases self.playlists@.len() - k,
        {
            let place: usize = self.playlists[k].index;
            let mut p: usize = 0;
            while p < order.len() && self.playlists[order[p]].index <= place
                invariant
                    p <= order@.len(),
                    order@.len() == k,
                    k < self.playlists@.len(),
                    place == self.playlists@[k as int].index,
                    forall|i: int| 0 <= i < order@.len() ==> (#[trigger] order@[i]) < k,
                    forall|i: int|
                        0 <= i < p ==> self.playlists@[(#[trigger] order@[i]) as int].index <= place,
                decreases order@.len() - p,
            {
                p += 1;
            }
            let ghost before = order@;
            order.insert(p, k);
            proof {
                let after = order@;
                assert(after == before.insert(p as int, k));
                assert forall|i: int| 0 <= i < after.len() implies (#[trigger] after[i]) < k
                    + 1 by {
                    if i < p {
                        assert(after[i] == before[i]);
                    } else if i > p {
                        assert(after[i] == before[i - 1]);
                    }
                }
                assert forall|i: int, j: int|
                    0 <= i < after.len() && 0 <= j < after.len() && i != j implies after[i]
                    != after[j] by {
                    let a = if i < p {
                        i
                    } else {
                        i - 1
                    };
                    let b = if j < p {
                        j
                    } else {
                        j - 1
                    };
                    if i != p && j != p {
                        assert(after[i] == before[a]);
                        assert(after[j] == before[b]);
                    } else if i == p {
                        assert(after[j] == before[b]);
                    } else {
                        assert(after[i] == before[a]);
                    }
                }
                assert forall|i: int, j: int| 0 <= i < j < after.len() implies self.playlists@[(
                #[trigger] after[i]) as int].index <= self.playlists@[(
                #[trigger] after[j]) as int].index by {
                    if j < p {
                        assert(after[i] == before[i] && after[j] == before[j]);
                    } else if j == p {
                        assert(after[i] == before[i]);
                    } else if i == p {
                        assert(after[j] == before[j - 1]);
                        // what stands at `p` was the first with a later place
                        assert(self.playlists@[before[p as int] as int].index > place);
                        if j - 1 > p {
                            assert(self.playlists@[before[p as int] as int].index
                                <= self.playlists@[before[j - 1] as int].index);
                        }
                    } else if i < p {
                        assert(after[i] == before[i] && after[j] == before[j - 1]);
                    } else {
                        assert(after[i] == before[i - 1] && after[j] == before[j - 1]);
                    }
                }
            }
            k += 1;
        }
        order
    }

    /// The playlists as they are shown: each once, by ascending place.
    pub fn listing(&self) -> (r: Vec<PlaylistInfo>)
        ensures
            is_listing(self.playlists@, crate::protocol::playlists_view(r@)),
    {
        let order = self.order_by_index();
        let mut out: Vec<PlaylistInfo> = Vec::new();
        let mut i: usize = 0;
        while i < order.len()
            invariant
                i <= order@.len(),
                out@.len() == i,
                crate::playlist::is_play_order(order@, self.playlists@.len()),
                forall|k: int|
                    0 <= k < i ==> out@[k]@ == self.playlists@[order@[k] as int].info_view(),
            decreases order@.len() - i,
        {
            out.push(self.playlists[order[i]].info());
            i += 1;
        }
        proof {
            let listing = crate::protocol::playlists_view(out@);
            assert(listing.len() == self.playlists@.len());
            assert forall|k: int| 0 <= k < listing.len() implies listing[k]
                == self.playlists@[order@[k] as int].info_view() by {}
            assert(is_listing(self.playlists@, listing));
        }
        out
    }

    /// Answers the query for the list of playlists. Before the playlists
    /// are fetched, the query goes back to the head of the queue and the
    /// caller is told to fetch them.
    pub fn send_playlistlist(&mut self) -> (work: Work)
        ensures
            final(self).playlists == old(self).playlists,
            final(self).all_playlist_fetched == old(self).all_playlist_fetched,
            old(self).all_playlist_fetched ==> {
                &&& final(self).tasks == old(self).tasks
                &&& work matches Work::Send(Answer::PlaylistList(lists))
                &&& is_listing(old(self).playlists@, crate::protocol::playlists_view(lists@))
            },
            !old(self).all_playlist_fetched ==> {
                &&& work is FetchPlaylists
                &&& tasks_view(final(self).tasks@) == seq![
                    TaskView::Command(
                        crate::protocol::RequestView::Get(
                            crate::protocol::GetRequestView::PlaylistList,
                        ),
                    ),
                ] + tasks_view(old(self).tasks@)
            },
    {
        if !self.all_playlist_fetched {
            let ghost before = tasks_view(self.tasks@);
            let task = Task::Command(Request::Get(GetRequest::PlaylistList));
            self.tasks.push_front(task);
            assert(tasks_view(self.tasks@) =~= seq![task@] + before);
            return Work::FetchPlaylists;
        }
        Work::Send(Answer::PlaylistList(self.listing()))
    }

    /// Answers the query for one playlist, and queues the loading of its
    /// pages. A playlist that is not known is not answered for. Before the
    /// playlists are fetched, the query goes back to the head of the queue
    /// and the caller is told to fetch them.
    pub fn send_playlist(&mut self, id: String) -> (work: Work)
        requires
            old(self).well_formed(),
        ensures
            final(self).well_formed(),
            final(self).playlists == old(self).playlists,
            final(self).all_playlist_fetched == old(self).all_playlist_fetched,
            !old(self).all_playlist_fetched ==> {
                &&& work is FetchPlaylists
                &&& tasks_view(final(self).tasks@) == seq![
                    TaskView::Command(
                        crate::protocol::RequestView::Get(
                            crate::protocol::GetRequestView::Playlist(id@),
                        ),
                    ),
                ] + tasks_view(old(self).tasks@)
            },
            old(self).all_playlist_fetched ==> match old(self).position(id@) {
                Some(i) => {
                    &&& work matches Work::Send(Answer::Playlist(playlist))
                    &&& playlist@ == old(self).playlists@[i].info_view()
                    &&& tasks_view(final(self).tasks@) == tasks_view(old(self).tasks@).push(
                        TaskView::Playlist(id@, ActionPlaylist::LoadAll),
                    )
                },
                None => {
                    &&& work is Nothing
                    &&& final(self).tasks == old(self).tasks
                },
            },
    {
        let ghost before = tasks_view(self.tasks@);
        if !self.all_playlist_fetched {
            let task = Task::Command(Request::Get(GetRequest::Playlist(id)));
            self.tasks.push_front(task);
            assert(tasks_view(self.tasks@) =~= seq![task@] + before);
            return Work::FetchPlaylists;
        }
        match self.find(&id) {
            Some(i) => {
                let info = self.playlists[i].info();
                let task = Task::Playlist(id, ActionPlaylist::LoadAll);
                self.tasks.push_back(task);
                assert(tasks_view(self.tasks@) =~= before.push(task@));
                Work::Send(Answer::Playlist(info))
            },
            None => Work::Nothing,
        }
    }

    /// `self` and `work` are what answering the query `get` comes to, with
    /// `queue` as the work that waited before.
    pub open spec fn get_done(&self, queue: Seq<TaskView>, get: GetRequest, work: Work) -> bool {
        match get {
            GetRequest::PlayerInfo => work is Nothing && tasks_view(self.tasks@) == queue,
            GetRequest::PlaylistList => if self.all_playlist_fetched {
                &&& tasks_view(self.tasks@) == queue
                &&& work matches Work::Send(Answer::PlaylistList(lists))
                &&& is_listing(self.playlists@, crate::protocol::playlists_view(lists@))
            } else {
                &&& work is FetchPlaylists
                &&& tasks_view(self.tasks@) == seq![
                    TaskView::Command(
                        crate::protocol::RequestView::Get(
                            crate::protocol::GetRequestView::PlaylistList,
                        ),
                    ),
                ] + queue
            },
            GetRequest::Playlist(id) => if self.all_playlist_fetched {
                match self.position(id@) {
                    Some(i) => {
                        &&& work matches Work::Send(Answer::Playlist(playlist))
                        &&& playlist@ == self.playlists@[i].info_view()
                        &&& tasks_view(self.tasks@) == queue.push(
                            TaskView::Playlist(id@, ActionPlaylist::LoadAll),
                        )
                    },
                    None => work is Nothing && tasks_view(self.tasks@) == queue,
                }
            } else {
                &&& work is FetchPlaylists
                &&& tasks_view(self.tasks@) == seq![
                    TaskView::Command(
                        crate::protocol::RequestView::Get(
                            crate::protocol::GetRequestView::Playlist(id@),
                        ),
                    ),
                ] + queue
            },
        }
    }

    /// `self` and `work` are what carrying out `request` comes to, with
    /// `queue` as the work that waited before.
    pub open spec fn command_done(&self, queue: Seq<TaskView>, request: Request, work: Work) -> bool {
        match request {
            Request::Get(get) => self.get_done(queue, get, work),
            Request::Modify(_) => work is Unsupported && tasks_view(self.tasks@) == queue,
            _ => work is Nothing && tasks_view(self.tasks@) == queue,
        }
    }

    /// The page to fetch next for the playlist with the id `id`, if it is
    /// known and not loaded to its end.
    pub open spec fn page_to_load(&self, id: Seq<char>) -> Option<Seq<char>> {
        match self.position(id) {
            Some(i) => match self.playlists@[i].next_page_token {
                Some(token) => Some(token@),
                None => None,
            },
            None => None,
        }
    }

    /// `self` and `work` are what carrying out `task` comes to, with `queue`
    /// as the work that waited before.
    pub open spec fn task_done(&self, queue: Seq<TaskView>, task: Task, work: Work) -> bool {
        match task {
            Task::PlaylistList(_) => work is Nothing && tasks_view(self.tasks@) == queue,
            Task::Playlist(id, ActionPlaylist::LoadPage) => work is Nothing && tasks_view(
                self.tasks@,
            ) == queue,
            Task::Playlist(id, ActionPlaylist::LoadAll) => {
                &&& tasks_view(self.tasks@) == queue
                &&& match self.page_to_load(id@) {
                    Some(token) => (work matches Work::FetchPage { id: page_id, token: page_token }
                        && page_id@ == id@ && page_token@ == token),
                    None => work is Nothing,
                }
            },
            Task::Command(request) => self.command_done(queue, request, work),
        }
    }

    /// Answers a query. This backend has no player to report on.
    pub fn handle_get(&mut self, request: GetRequest) -> (work: Work)
        requires
            old(self).well_formed(),
        ensures
            final(self).well_formed(),
            final(self).playlists == old(self).playlists,
            final(self).all_playlist_fetched == old(self).all_playlist_fetched,
            final(self).get_done(tasks_view(old(self).tasks@), request, work),
    {
        match request {
            GetRequest::PlaylistList => self.send_playlistlist(),
            GetRequest::Playlist(id) => self.send_playlist(id),
            GetRequest::PlayerInfo => Work::Nothing,
        }
    }

    /// Carries out a request of the front end: queries are answered, a
    /// change to the content is given up, anything else is left to others.
    pub fn handle_command(&mut self, request: Request) -> (work: Work)
        requires
            old(self).well_formed(),
        ensures
            final(self).well_formed(),
            final(self).playlists == old(self).playlists,
            final(self).all_playlist_fetched == old(self).all_playlist_fetched,
            final(self).command_done(tasks_view(old(self).tasks@), request, work),
    {
        match request {
            Request::PlayerAction(_) => Work::Nothing,
            Request::Get(request) => self.handle_get(request),
            Request::Modify(_) => Work::Unsupported,
            Request::Command(_) => Work::Nothing,
        }
    }

    /// Carries out one piece of work. Loading a playlist asks for its next
    /// page, if it has one to load.
    pub fn handle_task(&mut self, task: Task) -> (work: Work)
        requires
            old(self).well_formed(),
        ensures
            final(self).well_formed(),
            final(self).playlists == old(self).playlists,
            final(self).all_playlist_fetched == old(self).all_playlist_fetched,
            final(self).task_done(tasks_view(old(self).tasks@), task, work),
    {
        match task {
            Task::PlaylistList(_) => Work::Nothing,
            Task::Playlist(id, action) => {
                match action {
                    ActionPlaylist::LoadAll => {
                        match self.find(&id) {
                            Some(i) => {
                                match &self.playlists[i].next_page_token {
                                    Some(token) => Work::FetchPage { id, token: token.clone() },
                                    None => Work::Nothing,
                                }
                            },
                            None => Work::Nothing,
                        }
                    },
                    ActionPlaylist::LoadPage => Work::Nothing,
                }
            },
            Task::Command(command) => self.handle_command(command),
        }
    }

    /// Takes the next piece of work off the queue and carries it out. At
    /// most one piece is taken at a time, so that a burst of requests cannot
    /// keep the backend from its other work.
    pub fn next_work(&mut self) -> (work: Work)
        requires
            old(self).well_formed(),
        ensures
            final(self).well_formed(),
            final(self).playlists == old(self).playlists,
            final(self).all_playlist_fetched == old(self).all_playlist_fetched,
            if old(self).tasks@.len() == 0 {
                work is Nothing && final(self).tasks@.len() == 0
            } else {
                final(self).task_done(
                    tasks_view(old(self).tasks@).drop_first(),
                    old(self).tasks@[0],
                    work,
                )
            },
    {
        let ghost before = tasks_view(self.tasks@);
        match self.tasks.pop_front() {
            Some(task) => {
                assert(tasks_view(self.tasks@) =~= before.drop_first());
                self.handle_task(task)
            },
            None => Work::Nothing,
        }
    }

    /// Takes in a page of the playlist with the id `id`, and queues the
    /// loading of the next page if there is one. A page of a playlist that is
    /// not known is dropped.
    pub fn page_loaded(
        &mut self,
        id: String,
        items: &Vec<PlaylistItem>,
        videos: &Vec<Video>,
        next: Option<String>,
    )
        requires
            old(self).well_formed(),
        ensures
            final(self).well_formed(),
            final(self).all_playlist_fetched == old(self).all_playlist_fetched,
            final(self).playlists@.len() == old(self).playlists@.len(),
            match old(self).position(id@) {
                None => final(self).playlists == old(self).playlists && final(self).tasks == old(
                    self,
                ).tasks,
                Some(i) => {
                    &&& forall|k: int|
                        0 <= k < old(self).playlists@.len() && k != i ==> final(self).playlists@[k]
                            == old(self).playlists@[k]
                    &&& final(self).playlists@[i].id == old(self).playlists@[i].id
                    &&& old(self).playlists@[i].loaded() ==> final(self).playlists@[i] == old(
                        self,
                    ).playlists@[i]
                    &&& !old(self).playlists@[i].loaded() ==> {
                        &&& final(self).playlists@[i].next_page_token == next
                        &&& yt_songs_view(final(self).playlists@[i].songs@) == yt_songs_view(
                            old(self).playlists@[i].songs@,
                        ) + filtered(
                            Seq::new(items@.len(), |k: int| page_song(items@[k])),
                            videos@,
                        )
                    }
                    &&& tasks_view(final(self).tasks@) == if final(self).playlists@[i].loaded() {
                        tasks_view(old(self).tasks@)
                    } else {
                        tasks_view(old(self).tasks@).push(
                            TaskView::Playlist(id@, ActionPlaylist::LoadAll),
                        )
                    }
                },
            },
    {
        match self.find(&id) {
            Some(i) => {
                let mut playlist = self.playlists.remove(i);
                playlist.add_page(items, videos, next);
                let loaded: bool = playlist.is_loaded();
                self.playlists.insert(i, playlist);
                assert(self.playlists@.len() == old(self).playlists@.len());
                assert forall|a: int, b: int| 0 <= a < b < self.playlists@.len() implies (
                #[trigger] self.playlists@[a]).id@ != (#[trigger] self.playlists@[b]).id@ by {
                    assert(self.playlists@[a].id@ == old(self).playlists@[a].id@);
                    assert(self.playlists@[b].id@ == old(self).playlists@[b].id@);
                }
                if !loaded {
                    let ghost before = tasks_view(self.tasks@);
                    let task = Task::Playlist(id, ActionPlaylist::LoadAll);
                    self.tasks.push_back(task);
                    assert(tasks_view(self.tasks@) =~= before.push(task@));
                }
            },
            None => {},
        }
    }
}

} // verus!
