use yamav3::protocol::{Answer, GetRequest, PlayerAction, Request, SetRequest, SongInfo, Widget};
use yamav3::youtube::{
    check_video_available, connect_alert, filter, find_available, present_user_url, ActionPlaylist,
    ActionPlaylistList, Backend, Playlist, PlaylistItem, PlaylistMeta, Song, Task, Video, Work,
};

fn item(id: &str) -> PlaylistItem {
    PlaylistItem {
        title: Some(format!("title {id}")),
        video_id: Some(id.to_string()),
        channel_title: Some(format!("channel {id}")),
        thumbnail_url: Some(format!("thumb {id}")),
    }
}

fn video(id: &str, duration: &str) -> Video {
    Video {
        id: Some(id.to_string()),
        blocked: None,
        privacy_status: Some("public".to_string()),
        duration: Some(duration.to_string()),
    }
}

fn meta(id: &str, count: u32) -> PlaylistMeta {
    PlaylistMeta {
        id: Some(id.to_string()),
        title: Some(format!("list {id}")),
        item_count: Some(count),
        thumbnail_url: Some(format!("thumb {id}")),
    }
}

#[test]
fn song_from_an_entry() {
    let song = Song::new(&item("abc"));
    assert_eq!(song.title, "title abc");
    assert_eq!(song.id, "abc");
    assert_eq!(song.artist, "channel abc");
    assert_eq!(song.art_url, "thumb abc");
    assert_eq!(song.duration, 0);
    let bare = Song::new(&PlaylistItem {
        title: None,
        video_id: None,
        channel_title: None,
        thumbnail_url: None,
    });
    assert_eq!(bare.title, "");
    assert_eq!(bare.id, "");
}

#[test]
fn song_info_has_the_short_url() {
    let info = Song::new(&item("dQw4")).with_duration(Some(212)).info();
    assert_eq!(
        info,
        SongInfo {
            title: "title dQw4".to_string(),
            artist: "channel dQw4".to_string(),
            cover_url: "thumb dQw4".to_string(),
            id: "dQw4".to_string(),
            url: "https://youtu.be/dQw4".to_string(),
            duration: 212,
        }
    );
    assert_eq!(Song::new(&item("x")).with_duration(None).duration, 0);
}

#[test]
fn blocked_and_private_videos_are_not_available() {
    assert!(check_video_available(&video("a", "PT1S")));
    let blocked_here = Video { blocked: Some(vec!["de".to_string(), "fr".to_string()]), ..video("a", "PT1S") };
    assert!(!check_video_available(&blocked_here));
    let blocked_elsewhere = Video { blocked: Some(vec!["de".to_string()]), ..video("a", "PT1S") };
    assert!(check_video_available(&blocked_elsewhere));
    let private = Video { privacy_status: Some("private".to_string()), ..video("a", "PT1S") };
    assert!(!check_video_available(&private));
    let unknown = Video { privacy_status: None, ..video("a", "PT1S") };
    assert!(check_video_available(&unknown));
}

#[test]
fn filter_keeps_available_songs_and_sets_their_length() {
    let songs = vec![Song::new(&item("a")), Song::new(&item("b")), Song::new(&item("c")), Song::new(&item("d"))];
    let videos = vec![
        Video { privacy_status: Some("private".to_string()), ..video("a", "PT9S") },
        video("c", "PT3M20S"),
        video("a", "PT1H1S"),
        video("c", "PT5S"),
        video("d", "P2Y"),
    ];
    let kept = filter(&songs, &videos);
    let ids: Vec<&str> = kept.iter().map(|s| s.id.as_str()).collect();
    assert_eq!(ids, vec!["a", "c", "d"]);
    assert_eq!(kept[0].duration, 3601);
    assert_eq!(kept[1].duration, 200);
    // a length in years cannot be told in seconds
    assert_eq!(kept[2].duration, 0);
    assert_eq!(kept[1].title, "title c");
    assert_eq!(find_available(&videos, &"a".to_string()), Some(2));
    assert_eq!(find_available(&videos, &"b".to_string()), None);
}

#[test]
fn filter_counts_unreadable_lengths_as_zero() {
    let songs = vec![Song::new(&item("a")), Song::new(&item("b"))];
    let videos = vec![video("a", "three minutes"), Video { duration: None, ..video("b", "") }];
    let kept = filter(&songs, &videos);
    assert_eq!(kept.len(), 2);
    assert_eq!(kept[0].duration, 0);
    assert_eq!(kept[1].duration, 0);
}

#[test]
fn playlist_loads_page_by_page() {
    let mut playlist = Playlist::new(&meta("p", 120), Some(4));
    assert_eq!(playlist.id(), "p");
    assert_eq!(playlist.title, "list p");
    assert_eq!(playlist.length, 120);
    assert_eq!(playlist.index, 4);
    assert_eq!(playlist.next_page_token, Some(String::new()));
    assert!(!playlist.is_loaded());
    playlist.add_page(
        &vec![item("a"), item("b")],
        &vec![video("a", "PT10S"), video("b", "PT20S")],
        Some("page2".to_string()),
    );
    assert_eq!(playlist.songs.len(), 2);
    assert_eq!(playlist.length, 120);
    assert!(!playlist.is_loaded());
    playlist.add_page(&vec![item("c"), item("gone")], &vec![video("c", "PT30S")], None);
    assert!(playlist.is_loaded());
    assert_eq!(playlist.length, 3);
    let info = playlist.info();
    assert_eq!(info.length, 3);
    assert_eq!(info.cover_url, "thumb p");
    let durations: Vec<u64> = info.songs.iter().map(|s| s.duration).collect();
    assert_eq!(durations, vec![10, 20, 30]);
    assert_eq!(playlist.vec_songs_info(), info.songs);
    // a loaded playlist takes no page
    playlist.add_page(&vec![item("z")], &vec![video("z", "PT1S")], Some("more".to_string()));
    assert_eq!(playlist.songs.len(), 3);
    assert!(playlist.is_loaded());
    let bare = Playlist::new(
        &PlaylistMeta { id: None, title: None, item_count: None, thumbnail_url: None },
        None,
    );
    assert_eq!(bare.index, 0);
    assert_eq!(bare.length, 0);
}

#[test]
fn catalog_keeps_the_first_place_for_liked_videos() {
    let mut backend = Backend::new();
    backend.set_catalog(&Some(meta("LL", 5)), &vec![meta("x", 1), meta("y", 2)]);
    assert!(backend.all_playlist_fetched);
    let places: Vec<(String, usize)> =
        backend.playlists.iter().map(|p| (p.id.clone(), p.index)).collect();
    assert_eq!(
        places,
        vec![("LL".to_string(), 0), ("x".to_string(), 1), ("y".to_string(), 2)]
    );
    // fetched already: nothing changes
    backend.set_catalog(&None, &vec![meta("z", 1)]);
    assert_eq!(backend.playlists.len(), 3);
}

#[test]
fn insert_replaces_the_playlist_of_the_same_id() {
    let mut backend = Backend::new();
    backend.insert(Playlist::new(&meta("a", 1), Some(0)));
    backend.insert(Playlist::new(&meta("b", 2), Some(1)));
    backend.insert(Playlist::new(&meta("a", 9), Some(2)));
    assert_eq!(backend.playlists.len(), 2);
    assert_eq!(backend.playlists[0].length, 9);
    assert_eq!(backend.find(&"b".to_string()), Some(1));
    assert_eq!(backend.find(&"c".to_string()), None);
}

#[test]
fn listing_goes_by_place() {
    let mut backend = Backend::new();
    backend.insert(Playlist::new(&meta("c", 1), Some(2)));
    backend.insert(Playlist::new(&meta("a", 1), Some(0)));
    backend.insert(Playlist::new(&meta("d", 1), Some(3)));
    backend.insert(Playlist::new(&meta("b", 1), Some(1)));
    assert_eq!(backend.order_by_index(), vec![1, 3, 0, 2]);
    let ids: Vec<String> = backend.listing().into_iter().map(|p| p.id).collect();
    assert_eq!(ids, vec!["a", "b", "c", "d"]);
}

#[test]
fn queries_wait_for_the_catalog() {
    let mut backend = Backend::new();
    backend.enqueue(Task::Command(Request::Get(GetRequest::PlaylistList)));
    backend.enqueue(Task::Command(Request::Get(GetRequest::PlayerInfo)));
    assert!(matches!(backend.next_work(), Work::FetchPlaylists));
    // the query is back at the head of the queue
    assert_eq!(backend.tasks.len(), 2);
    backend.set_catalog(&Some(meta("LL", 5)), &vec![meta("x", 1)]);
    match backend.next_work() {
        Work::Send(Answer::PlaylistList(lists)) => {
            let ids: Vec<String> = lists.into_iter().map(|p| p.id).collect();
            assert_eq!(ids, vec!["LL", "x"]);
        }
        other => panic!("unexpected work {other:?}"),
    }
    assert!(matches!(backend.next_work(), Work::Nothing));
    assert!(matches!(backend.next_work(), Work::Nothing));
    assert_eq!(backend.tasks.len(), 0);
}

#[test]
fn asking_for_a_playlist_queues_its_loading() {
    let mut backend = Backend::new();
    backend.set_catalog(&None, &vec![meta("x", 100)]);
    match backend.handle_command(Request::Get(GetRequest::Playlist("x".to_string()))) {
        Work::Send(Answer::Playlist(list)) => assert_eq!(list.id, "x"),
        other => panic!("unexpected work {other:?}"),
    }
    match backend.next_work() {
        Work::FetchPage { id, token } => {
            assert_eq!(id, "x");
            assert_eq!(token, "");
        }
        other => panic!("unexpected work {other:?}"),
    }
    // one page loaded, another to come: the loading queues itself again
    backend.page_loaded("x".to_string(), &vec![item("a")], &vec![video("a", "PT1S")], Some("t2".to_string()));
    assert_eq!(backend.tasks.len(), 1);
    match backend.next_work() {
        Work::FetchPage { id, token } => {
            assert_eq!(id, "x");
            assert_eq!(token, "t2");
        }
        other => panic!("unexpected work {other:?}"),
    }
    backend.page_loaded("x".to_string(), &vec![item("b")], &vec![video("b", "PT2S")], None);
    assert_eq!(backend.tasks.len(), 0);
    assert_eq!(backend.playlists[0].songs.len(), 2);
    assert_eq!(backend.playlists[0].length, 2);
    // loaded: nothing left to fetch
    assert!(matches!(
        backend.handle_task(Task::Playlist("x".to_string(), ActionPlaylist::LoadAll)),
        Work::Nothing
    ));
    // a page of an unknown playlist is dropped
    backend.page_loaded("nope".to_string(), &vec![item("b")], &vec![], None);
    assert_eq!(backend.playlists.len(), 1);
}

#[test]
fn unknown_playlists_and_other_requests() {
    let mut backend = Backend::new();
    backend.set_catalog(&None, &vec![]);
    assert!(matches!(
        backend.handle_command(Request::Get(GetRequest::Playlist("nope".to_string()))),
        Work::Nothing
    ));
    assert!(matches!(
        backend.handle_command(Request::PlayerAction(PlayerAction::Next)),
        Work::Nothing
    ));
    assert!(matches!(backend.handle_command(Request::Command("x".to_string())), Work::Nothing));
    let change = SetRequest::AddSongToPlaylist { song: "s".to_string(), playlist: "p".to_string() };
    assert!(matches!(backend.handle_command(Request::Modify(change)), Work::Unsupported));
    assert!(matches!(
        backend.handle_task(Task::PlaylistList(ActionPlaylistList::FetchAll)),
        Work::Nothing
    ));
    assert!(matches!(
        backend.handle_task(Task::Playlist("x".to_string(), ActionPlaylist::LoadPage)),
        Work::Nothing
    ));
}

#[test]
fn load_all_playlists_queues_each() {
    let mut backend = Backend::new();
    backend.set_catalog(&Some(meta("LL", 5)), &vec![meta("x", 1)]);
    backend.load_all_playlists();
    assert_eq!(backend.tasks.len(), 2);
    assert!(matches!(&backend.tasks[0], Task::Playlist(id, ActionPlaylist::LoadAll) if id == "LL"));
    assert!(matches!(&backend.tasks[1], Task::Playlist(id, ActionPlaylist::LoadAll) if id == "x"));
}

#[test]
fn sign_in_dialogs() {
    match connect_alert() {
        Widget::Alert { title, content } => {
            assert_eq!(title, "Connect to Youtube");
            assert_eq!(content, "Go to your browser to authenticate");
        }
        other => panic!("unexpected widget {other:?}"),
    }
    assert!(present_user_url("https://a.b", false, true).is_none());
    match present_user_url("https://a.b", false, false) {
        Some(Widget::Alert { title, content }) => {
            assert_eq!(title, "Youtube authentication");
            assert_eq!(
                content,
                "Please direct your browser to https://a.b and follow the instructions displayed there."
            );
        }
        other => panic!("unexpected widget {other:?}"),
    }
    match present_user_url("https://a.b", true, false) {
        Some(Widget::Alert { content, .. }) => {
            assert_eq!(content, "Inputting code to authenticate not supported");
        }
        other => panic!("unexpected widget {other:?}"),
    }
}
