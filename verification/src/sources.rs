//! The songs of the panel front end, as its sources give them.
use crate::text::text_or_empty;
use crate::youtube::PlaylistItem;
use vstd::prelude::*;

verus! {

/// A song.
#[derive(Debug, PartialEq, Eq)]
pub struct Song {
    pub title: String,
    pub artists: Vec<String>,
    /// Length of the song, in milliseconds.
    pub duration_millis: u64,
}

impl Default for Song {
    fn default() -> (r: Song)
        ensures
            r.title@.len() == 0,
            r.artists@.len() == 0,
            r.duration_millis == 0,
    {
        Song { title: String::new(), artists: Vec::new(), duration_millis: 0 }
    }
}

impl Clone for Song {
    fn clone(&self) -> (r: Song)
        ensures
            r.title@ == self.title@,
            crate::text::texts_view(r.artists@) == crate::text::texts_view(self.artists@),
            r.duration_millis == self.duration_millis,
    {
        Song {
            title: self.title.clone(),
            artists: crate::text::clone_texts(&self.artists),
            duration_millis: self.duration_millis,
        }
    }
}

/// A song of the video service.
#[derive(Debug, PartialEq, Eq)]
pub struct YtSong {
    pub song: Song,
    pub id: String,
}

/// The song that an entry of a playlist describes, if the entry names the
/// channel that owns the video: its one artist is that channel. An entry
/// without a channel, or with an empty one, gives no song.
pub fn song_from_item(item: &PlaylistItem) -> (r: Option<YtSong>)
    ensures
        r is Some == (text_or_empty(item.channel_title).len() > 0),
        r is Some ==> {
            &&& r->0.song.title@ == text_or_empty(item.title)
            &&& r->0.song.artists@.len() == 1
            &&& r->0.song.artists@[0]@ == text_or_empty(item.channel_title)
            &&& r->0.song.duration_millis == 0
            &&& r->0.id@ == text_or_empty(item.video_id)
        },
{
    let artist: String = match &item.channel_title {
        Some(name) => name.clone(),
        None => String::new(),
    };
    if artist.as_str().unicode_len() == 0 {
        return None;
    }
    let mut artists: Vec<String> = Vec::new();
    artists.push(artist);
    Some(
        YtSong {
            song: Song {
                title: match &item.title {
                    Some(t) => t.clone(),
                    None => String::new(),
                },
                artists,
                duration_millis: 0,
            },
            id: match &item.video_id {
                Some(id) => id.clone(),
                None => String::new(),
            },
        },
    )
}

/// The sources of the panel front end.
#[derive(Debug, Clone, Copy, PartialEq, Eq, Structural)]
pub enum ClientKind {
    Youtube,
    Local,
}

impl ClientKind {
    /// The name shown for the source.
    pub open spec fn label_spec(self) -> Seq<char> {
        match self {
            ClientKind::Youtube => "Youtube"@,
            ClientKind::Local => "Local files"@,
        }
    }

    /// The name shown for the source.
    pub fn label(&self) -> (text: String)
        ensures
            text@ == self.label_spec(),
    {
        match self {
            ClientKind::Youtube => "Youtube".to_owned(),
            ClientKind::Local => "Local files".to_owned(),
        }
    }
}

/// A playlist of the video service, as the panel front end holds it.
#[derive(Debug)]
pub struct YtPlaylist {
    pub title: String,
    pub entries: Vec<YtSong>,
    pub id: String,
    /// The token of the page to load next: the empty text before the first
    /// page, and none once the last page is loaded.
    pub next_page: Option<String>,
    pub is_loading: bool,
}

impl YtPlaylist {
    /// A playlist of which no page is loaded yet, from what the service
    /// lists. What the service does not say is empty.
    pub fn new(playlist: &crate::youtube::PlaylistMeta) -> (r: YtPlaylist)
        ensures
            r.title@ == text_or_empty(playlist.title),
            r.id@ == text_or_empty(playlist.id),
            r.entries@.len() == 0,
            r.next_page is Some && r.next_page->0@ == Seq::<char>::empty(),
            !r.is_loading,
    {
        YtPlaylist {
            title: crate::text::or_empty(&playlist.title),
            id: crate::text::or_empty(&playlist.id),
            entries: Vec::new(),
            next_page: Some(String::new()),
            is_loading: false,
        }
    }

    /// The title of the playlist.
    pub fn get_title(&self) -> (r: String)
        ensures
            r@ == self.title@,
    {
        self.title.clone()
    }

    /// How many songs are loaded.
    pub fn get_number_entries(&self) -> (r: usize)
        ensures
            r == self.entries@.len(),
    {
        self.entries.len()
    }

    /// Whether the playlist is being loaded.
    pub fn is_loading(&self) -> (r: bool)
        ensures
            r == self.is_loading,
    {
        self.is_loading
    }

    /// Whether the last page is loaded.
    pub fn is_loaded(&self) -> (r: bool)
        ensures
            r == self.next_page is None,
    {
        self.next_page.is_none()
    }

    /// The line shown for the playlist: its title, with a mark while it is
    /// being loaded.
    pub fn line(&self) -> (r: String)
        ensures
            r@ == if self.is_loading {
                self.title@ + " ⟳"@
            } else {
                self.title@
            },
    {
        if self.is_loading {
            self.title.clone().concat(" ⟳")
        } else {
            self.title.clone()
        }
    }

    /// Starts the loading of the playlist, and says whether there is
    /// anything to load: a playlist that is loaded to its end is not loaded
    /// again.
    pub fn start_loading(&mut self) -> (r: bool)
        ensures
            r == !(old(self).next_page is None),
            final(self).is_loading == r,
            final(self).title == old(self).title,
            final(self).id == old(self).id,
            final(self).entries == old(self).entries,
            final(self).next_page == old(self).next_page,
    {
        self.is_loading = !self.is_loaded();
        self.is_loading
    }

    /// Ends the loading of the playlist.
    pub fn finish_loading(&mut self)
        ensures
            !final(self).is_loading,
            final(self).title == old(self).title,
            final(self).id == old(self).id,
            final(self).entries == old(self).entries,
            final(self).next_page == old(self).next_page,
    {
        self.is_loading = false;
    }

    /// Takes in one page of the playlist: the songs of its entries are
    /// added, and `next` is the token of the page after it.
    pub fn load_page(&mut self, items: &Vec<PlaylistItem>, next: Option<String>)
        ensures
            final(self).title == old(self).title,
            final(self).id == old(self).id,
            final(self).is_loading == old(self).is_loading,
            final(self).next_page == next,
            final(self).entries@.len() == old(self).entries@.len() + page_songs(items@).len(),
            forall|i: int|
                0 <= i < old(self).entries@.len() ==> final(self).entries@[i] == old(
                    self,
                ).entries@[i],
            forall|k: int|
                0 <= k < page_songs(items@).len() ==> describes(
                    page_songs(items@)[k],
                    #[trigger] final(self).entries@[old(self).entries@.len() + k],
                ),
    {
        let ghost start = self.entries@.len();
        let mut i: usize = 0;
        assert(items@.take(0) =~= Seq::<PlaylistItem>::empty());
        while i < items.len()
            invariant
                i <= items@.len(),
                start == old(self).entries@.len(),
                self.title == old(self).title,
                self.id == old(self).id,
                self.is_loading == old(self).is_loading,
                self.entries@.len() == start + page_songs(items@.take(i as int)).len(),
                forall|j: int| 0 <= j < start ==> self.entries@[j] == old(self).entries@[j],
                forall|k: int|
                    0 <= k < page_songs(items@.take(i as int)).len() ==> describes(
                        page_songs(items@.take(i as int))[k],
                        #[trigger] self.entries@[start + k],
                    ),
            decreases items@.len() - i,
        {
            proof {
                let now = items@.take(i + 1);
                assert(now.drop_last() =~= items@.take(i as int));
                assert(now.last() == items@[i as int]);
            }
            match song_from_item(&items[i]) {
                Some(song) => {
                    self.entries.push(song);
                },
                None => {},
            }
            i += 1;
        }
        assert(items@.take(items@.len() as int) =~= items@);
        self.next_page = next;
    }
}

/// The entries of a page that give a song: those that name their channel,
/// in the order of the page.
pub open spec fn page_songs(items: Seq<PlaylistItem>) -> Seq<PlaylistItem>
    decreases items.len(),
{
    if items.len() == 0 {
        Seq::empty()
    } else if text_or_empty(items.last().channel_title).len() > 0 {
        page_songs(items.drop_last()).push(items.last())
    } else {
        page_songs(items.drop_last())
    }
}

/// `song` is the song that the entry `item` describes.
pub open spec fn describes(item: PlaylistItem, song: YtSong) -> bool {
    &&& song.song.title@ == text_or_empty(item.title)
    &&& song.id@ == text_or_empty(item.video_id)
    &&& song.song.artists@.len() == 1
    &&& song.song.artists@[0]@ == text_or_empty(item.channel_title)
    &&& song.song.duration_millis == 0
}

} // verus!
