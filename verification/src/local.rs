//! The backend of the local library: folders of media files, each folder a
//! playlist. Reading the disk is the caller's; what is made of it is here.
use crate::catalog::{find_playlist, has_id, is_first_with_id};
use crate::protocol::{
    clone_playlists, playlists_view, Answer, GetRequest, PlaylistInfo, PlaylistInfoView, Request,
    SongInfo, SongInfoView,
};
use vstd::prelude::*;

verus! {

/// What is read of one media file.
#[derive(Debug, Clone, PartialEq, Eq)]
pub struct MediaFile {
    /// The title that the file carries, if it carries one.
    pub title: Option<String>,
    pub file_name: String,
    /// The absolute path of the file.
    pub path: String,
    /// Length of the media, in whole seconds, if it is known.
    pub duration: Option<u64>,
}

/// The song in a media file: it goes by the name of the file, is titled as
/// the file says or else by that name, and plays from the path of the file.
pub open spec fn song_of(file: MediaFile) -> SongInfoView {
    SongInfoView {
        title: match file.title {
            Some(t) => t@,
            None => file.file_name@,
        },
        artist: Seq::empty(),
        cover_url: Seq::empty(),
        id: file.file_name@,
        url: "file://"@ + file.path@,
        duration: match file.duration {
            Some(d) => d as nat,
            None => 0,
        },
    }
}

/// The song in a media file.
pub fn make_song(file: &MediaFile) -> (r: SongInfo)
    ensures
        r@ == song_of(*file),
{
    SongInfo {
        title: match &file.title {
            Some(t) => t.clone(),
            None => file.file_name.clone(),
        },
        artist: String::new(),
        cover_url: String::new(),
        id: file.file_name.clone(),
        url: "file://".to_owned().concat(file.path.as_str()),
        duration: match file.duration {
            Some(d) => d,
            None => 0,
        },
    }
}

/// The playlist of a folder: it is titled by the name of the folder, goes by
/// its path, and holds the songs of its media files in their order.
pub fn get_playlist(name: &String, path: &String, files: &Vec<MediaFile>) -> (r: PlaylistInfo)
    ensures
        r@ == (PlaylistInfoView {
            title: name@,
            length: files@.len(),
            cover_url: Seq::empty(),
            id: path@,
            songs: Seq::new(files@.len(), |i: int| song_of(files@[i])),
        }),
        r.well_formed(),
{
    let mut songs: Vec<SongInfo> = Vec::new();
    let mut i: usize = 0;
    while i < files.len()
        invariant
            i <= files@.len(),
            songs@.len() == i,
            forall|k: int| 0 <= k < i ==> (#[trigger] songs@[k])@ == song_of(files@[k]),
        decreases files@.len() - i,
    {
        songs.push(make_song(&files[i]));
        i += 1;
    }
    let r = PlaylistInfo {
        title: name.clone(),
        length: files.len(),
        cover_url: String::new(),
        songs,
        id: path.clone(),
    };
    assert(r@.songs =~= Seq::new(files@.len(), |i: int| song_of(files@[i])));
    r
}

/// The playlists of `folders` that hold something, in their order.
pub open spec fn non_empty(folders: Seq<PlaylistInfo>) -> Seq<PlaylistInfoView>
    decreases folders.len(),
{
    if folders.len() == 0 {
        Seq::empty()
    } else if folders.last().length > 0 {
        non_empty(folders.drop_last()).push(folders.last()@)
    } else {
        non_empty(folders.drop_last())
    }
}

/// The state of the backend.
#[derive(Debug)]
pub struct Backend {
    /// The folders that hold media, each as a playlist.
    pub folders: Vec<PlaylistInfo>,
}

impl Backend {
    /// A backend over the folders that hold something.
    pub fn init(folders: Vec<PlaylistInfo>) -> (r: Backend)
        ensures
            playlists_view(r.folders@) == non_empty(folders@),
    {
        let mut kept: Vec<PlaylistInfo> = Vec::new();
        let mut folders = folders;
        let ghost all = folders@;
        let mut i: usize = 0;
        assert(all.take(0) =~= Seq::<PlaylistInfo>::empty());
        assert(playlists_view(kept@) =~= non_empty(all.take(0)));
        while i < folders.len()
            invariant
                i <= all.len(),
                folders@ == all,
                playlists_view(kept@) == non_empty(all.take(i as int)),
            decreases all.len() - i,
        {
            let ghost so_far = playlists_view(kept@);
            proof {
                let now = all.take(i + 1);
                assert(now.drop_last() =~= all.take(i as int));
                assert(now.last() == all[i as int]);
            }
            if folders[i].length > 0 {
                let folder = folders[i].clone();
                kept.push(folder);
                assert(playlists_view(kept@) =~= so_far.push(all[i as int]@));
            }
            i += 1;
        }
        assert(all.take(all.len() as int) =~= all);
        Backend { folders: kept }
    }

    /// Answers a query: the list of folders, or the folder with a given id,
    /// or the empty playlist where no folder has that id. This backend has
    /// no player to report on.
    pub fn handle_get(&self, request: &GetRequest) -> (answer: Option<Answer>)
        ensures
            match *request {
                GetRequest::PlaylistList => {
                    &&& answer matches Some(Answer::PlaylistList(lists))
                    &&& playlists_view(lists@) == playlists_view(self.folders@)
                },
                GetRequest::Playlist(id) => {
                    &&& answer matches Some(Answer::Playlist(playlist))
                    &&& forall|i: int|
                        is_first_with_id(playlists_view(self.folders@), id@, i) ==> playlist@
                            == self.folders@[i]@
                    &&& !has_id(playlists_view(self.folders@), id@) ==> playlist@
                        == PlaylistInfo::empty_view()
                },
                GetRequest::PlayerInfo => answer is None,
            },
    {
        match request {
            GetRequest::PlaylistList => Some(Answer::PlaylistList(clone_playlists(&self.folders))),
            GetRequest::Playlist(id) => {
                match find_playlist(&self.folders, id) {
                    Some(i) => {
                        assert forall|j: int|
                            is_first_with_id(playlists_view(self.folders@), id@, j) implies j
                            == i by {
                            if j < i {
                                assert(playlists_view(self.folders@)[j].id != id@);
                            }
                            if i < j {
                                assert(playlists_view(self.folders@)[i as int].id != id@);
                            }
                        }
                        Some(Answer::Playlist(self.folders[i].clone()))
                    },
                    None => Some(Answer::Playlist(PlaylistInfo::default())),
                }
            },
            GetRequest::PlayerInfo => None,
        }
    }

    /// Answers a request: queries are answered, and anything else is left to
    /// others. A change to the content is not supported: it is given up, which
    /// `Err` says.
    pub fn handle_request(&self, request: &Request) -> (r: Result<Option<Answer>, Unsupported>)
        ensures
            r is Err == (*request is Modify),
            match *request {
                Request::Get(get) => r is Ok && match get {
                    GetRequest::PlaylistList => r->Ok_0 matches Some(Answer::PlaylistList(lists))
                        && playlists_view(lists@) == playlists_view(self.folders@),
                    GetRequest::Playlist(id) => r->Ok_0 matches Some(Answer::Playlist(playlist))
                        && (forall|i: int|
                        is_first_with_id(playlists_view(self.folders@), id@, i) ==> playlist@
                            == self.folders@[i]@) && (!has_id(playlists_view(self.folders@), id@)
                        ==> playlist@ == PlaylistInfo::empty_view()),
                    GetRequest::PlayerInfo => r->Ok_0 is None,
                },
                Request::Modify(_) => true,
                _ => r is Ok && r->Ok_0 is None,
            },
    {
        match request {
            Request::PlayerAction(_) => Ok(None),
            Request::Get(get) => Ok(self.handle_get(get)),
            Request::Modify(_) => Err(Unsupported),
            Request::Command(_) => Ok(None),
        }
    }
}

/// The request asks for what the backend cannot do.
#[derive(Debug, Clone, Copy, PartialEq, Eq, Structural)]
pub struct Unsupported;

} // verus!
