use yamav3::local::{get_playlist, make_song, Backend, MediaFile, Unsupported};
use yamav3::protocol::{Answer, GetRequest, PlayerAction, PlaylistInfo, Request, SetRequest, SongInfo};

fn file(name: &str, title: Option<&str>, duration: Option<u64>) -> MediaFile {
    MediaFile {
        title: title.map(|t| t.to_string()),
        file_name: name.to_string(),
        path: format!("/music/{name}"),
        duration,
    }
}

fn folder(id: &str, n: usize) -> PlaylistInfo {
    let files: Vec<MediaFile> = (0..n).map(|i| file(&format!("{i}.ogg"), None, Some(1))).collect();
    get_playlist(&id.to_string(), &format!("/music/{id}"), &files)
}

#[test]
fn song_of_a_media_file() {
    assert_eq!(
        make_song(&file("a.ogg", Some("A song"), Some(61))),
        SongInfo {
            title: "A song".to_string(),
            artist: String::new(),
            cover_url: String::new(),
            id: "a.ogg".to_string(),
            url: "file:///music/a.ogg".to_string(),
            duration: 61,
        }
    );
    let untitled = make_song(&file("b.ogg", None, None));
    assert_eq!(untitled.title, "b.ogg");
    assert_eq!(untitled.duration, 0);
}

#[test]
fn playlist_of_a_folder() {
    let list = get_playlist(
        &"rock".to_string(),
        &"/music/rock".to_string(),
        &vec![file("a.ogg", None, None), file("b.ogg", None, None)],
    );
    assert_eq!(list.title, "rock");
    assert_eq!(list.id, "/music/rock");
    assert_eq!(list.length, 2);
    assert_eq!(list.cover_url, "");
    let ids: Vec<&str> = list.songs.iter().map(|s| s.id.as_str()).collect();
    assert_eq!(ids, vec!["a.ogg", "b.ogg"]);
}

#[test]
fn empty_folders_are_left_out() {
    let backend = Backend::init(vec![folder("a", 2), folder("b", 0), folder("c", 1), folder("d", 0)]);
    let ids: Vec<&str> = backend.folders.iter().map(|f| f.title.as_str()).collect();
    assert_eq!(ids, vec!["a", "c"]);
    assert!(Backend::init(vec![]).folders.is_empty());
}

#[test]
fn queries_are_answered_from_the_folders() {
    let backend = Backend::init(vec![folder("a", 2), folder("c", 1)]);
    match backend.handle_get(&GetRequest::PlaylistList) {
        Some(Answer::PlaylistList(lists)) => assert_eq!(lists, vec![folder("a", 2), folder("c", 1)]),
        other => panic!("unexpected answer {other:?}"),
    }
    match backend.handle_get(&GetRequest::Playlist("/music/c".to_string())) {
        Some(Answer::Playlist(list)) => assert_eq!(list, folder("c", 1)),
        other => panic!("unexpected answer {other:?}"),
    }
    match backend.handle_get(&GetRequest::Playlist("/music/unknown".to_string())) {
        Some(Answer::Playlist(list)) => assert_eq!(list, PlaylistInfo::default()),
        other => panic!("unexpected answer {other:?}"),
    }
    assert!(backend.handle_get(&GetRequest::PlayerInfo).is_none());
}

#[test]
fn other_requests_are_left_to_others() {
    let backend = Backend::init(vec![folder("a", 2)]);
    assert!(matches!(
        backend.handle_request(&Request::PlayerAction(PlayerAction::Stop)),
        Ok(None)
    ));
    assert!(matches!(backend.handle_request(&Request::Command("x".to_string())), Ok(None)));
    assert!(matches!(
        backend.handle_request(&Request::Get(GetRequest::PlaylistList)),
        Ok(Some(Answer::PlaylistList(_)))
    ));
    let change = SetRequest::RemoveSongFromPlaylist { song: "s".to_string(), playlist: "p".to_string() };
    assert!(matches!(backend.handle_request(&Request::Modify(change)), Err(Unsupported)));
}
