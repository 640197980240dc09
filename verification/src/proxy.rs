//! The orchestrator's handle on one backend: the last known playlists and
//! player state of that backend, and the requests that refresh them.
use crate::catalog::{upsert, upserted};
use crate::events::MyEvents;
use crate::protocol::{
    clone_playlists, clone_songs, playlists_view, songs_view, Answer, GetRequest, GetRequestView,
    PlayerInfo, PlayerInfoView, PlaylistInfo, PlaylistInfoView, Request, RequestView, SongInfo,
    SongInfoView,
};
use vstd::prelude::*;

verus! {

/// What a [`Client`] stands for in contracts.
pub struct ClientView {
    pub name: Seq<char>,
    pub playlists: Seq<PlaylistInfoView>,
    pub player_info: PlayerInfoView,
}

impl ClientView {
    /// The playlist at `index`, or the empty playlist where there is none.
    pub open spec fn playlist_at(self, index: Option<usize>) -> PlaylistInfoView {
        match index {
            Some(i) => if i < self.playlists.len() {
                self.playlists[i as int]
            } else {
                PlaylistInfo::empty_view()
            },
            None => PlaylistInfo::empty_view(),
        }
    }
}

/// What is known of one backend.
#[derive(Debug)]
pub struct Client {
    /// The name shown for the backend.
    pub name: String,
    /// The playlists last reported by the backend.
    pub playlists_info: Vec<PlaylistInfo>,
    /// The player state last reported by the backend.
    pub player_info: PlayerInfo,
}

impl View for Client {
    type V = ClientView;

    open spec fn view(&self) -> ClientView {
        ClientView {
            name: self.name@,
            playlists: playlists_view(self.playlists_info@),
            player_info: self.player_info@,
        }
    }
}

impl Client {
    /// The playlists known of the backend.
    pub open spec fn playlists(&self) -> Seq<PlaylistInfoView> {
        playlists_view(self.playlists_info@)
    }

    /// The playlist at `index`, or the empty playlist where there is none.
    pub open spec fn playlist_at(&self, index: Option<usize>) -> PlaylistInfoView {
        self@.playlist_at(index)
    }

    /// A handle on a backend of which nothing is known yet.
    pub fn new(name: String) -> (r: Client)
        ensures
            r.name == name,
            r.playlists() == Seq::<PlaylistInfoView>::empty(),
            r.player_info@ == PlayerInfo::empty_view(),
    {
        let r = Client { name, playlists_info: Vec::new(), player_info: PlayerInfo::default() };
        assert(r.playlists() =~= Seq::<PlaylistInfoView>::empty());
        r
    }

    /// Takes in one answer of the backend, and says what the orchestrator is
    /// to be told of it.
    ///
    /// - A player snapshot replaces the known one as a whole, and the
    ///   orchestrator is told to refresh.
    /// - A list of playlists replaces the known list.
    /// - A single playlist takes the place of the known playlist of the same
    ///   id, or is added.
    /// - A dialog is passed on as it is.
    /// - A bare acknowledgement changes nothing.
    pub fn handle_answer(&mut self, msg: Answer) -> (event: Option<MyEvents>)
        ensures
            final(self).name == old(self).name,
            match msg {
                Answer::PlayerInfo(info) => {
                    &&& final(self).player_info == info
                    &&& final(self).playlists_info == old(self).playlists_info
                    &&& event == Some(MyEvents::RefreshPlayerState)
                },
                Answer::PlaylistList(lists) => {
                    &&& final(self).playlists_info == lists
                    &&& final(self).player_info == old(self).player_info
                    &&& event is None
                },
                Answer::Playlist(playlist) => {
                    &&& upserted(old(self).playlists(), playlist@, final(self).playlists())
                    &&& final(self).player_info == old(self).player_info
                    &&& event is None
                },
                Answer::Widget(widget) => {
                    &&& *final(self) == *old(self)
                    &&& event == Some(MyEvents::Widget(widget))
                },
                Answer::Done => {
                    &&& *final(self) == *old(self)
                    &&& event is None
                },
            },
    {
        match msg {
            Answer::PlayerInfo(info) => {
                self.player_info = info;
                Some(MyEvents::RefreshPlayerState)
            },
            Answer::PlaylistList(lists) => {
                self.playlists_info = lists;
                None
            },
            Answer::Playlist(playlist) => {
                upsert(&mut self.playlists_info, playlist);
                None
            },
            Answer::Widget(widget) => Some(MyEvents::Widget(widget)),
            Answer::Done => None,
        }
    }

    /// The request that asks the backend for its list of playlists.
    pub fn update_playlistlist(&self) -> (r: Request)
        ensures
            r@ == RequestView::Get(GetRequestView::PlaylistList),
    {
        Request::Get(GetRequest::PlaylistList)
    }

    /// The request that asks the backend for the playlist at `index`; none
    /// where no playlist is known there.
    pub fn update_playlist(&self, index: Option<usize>) -> (r: Option<Request>)
        ensures
            match index {
                Some(i) => if i < self.playlists_info@.len() {
                    r is Some && r->0@ == RequestView::Get(
                        GetRequestView::Playlist(self.playlists_info@[i as int].id@),
                    )
                } else {
                    r is None
                },
                None => r is None,
            },
    {
        match index {
            Some(i) => {
                if i < self.playlists_info.len() {
                    Some(Request::Get(GetRequest::Playlist(self.playlists_info[i].id.clone())))
                } else {
                    None
                }
            },
            None => None,
        }
    }

    /// The request that asks the backend for the state of its player.
    pub fn update_player_info(&self) -> (r: Request)
        ensures
            r@ == RequestView::Get(GetRequestView::PlayerInfo),
    {
        Request::Get(GetRequest::PlayerInfo)
    }

    /// The playlists known of the backend.
    pub fn get_playlists(&self) -> (r: Vec<PlaylistInfo>)
        ensures
            playlists_view(r@) == self.playlists(),
            r@.len() == self.playlists_info@.len(),
    {
        clone_playlists(&self.playlists_info)
    }

    /// The playlist at `playlist`, or the empty playlist where there is none.
    pub fn get_playlist(&self, playlist: Option<usize>) -> (r: PlaylistInfo)
        ensures
            r@ == self.playlist_at(playlist),
    {
        match playlist {
            Some(i) => {
                if i < self.playlists_info.len() {
                    self.playlists_info[i].clone()
                } else {
                    PlaylistInfo::default()
                }
            },
            None => PlaylistInfo::default(),
        }
    }

    /// The tracks of the playlist at `playlist`; none where there is no such
    /// playlist.
    pub fn get_songs(&self, playlist: Option<usize>) -> (r: Vec<SongInfo>)
        ensures
            songs_view(r@) == self.playlist_at(playlist).songs,
    {
        match playlist {
            Some(i) => {
                if i < self.playlists_info.len() {
                    clone_songs(&self.playlists_info[i].songs)
                } else {
                    let r: Vec<SongInfo> = Vec::new();
                    assert(songs_view(r@) =~= Seq::<SongInfoView>::empty());
                    r
                }
            },
            None => {
                let r: Vec<SongInfo> = Vec::new();
                assert(songs_view(r@) =~= Seq::<SongInfoView>::empty());
                r
            },
        }
    }

    /// The player state last reported by the backend.
    pub fn get_player_info(&self) -> (r: PlayerInfo)
        ensures
            r@ == self.player_info@,
    {
        self.player_info.clone()
    }
}

} // verus!
