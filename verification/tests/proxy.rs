use yamav3::catalog::{find_playlist, upsert};
use yamav3::events::MyEvents;
use yamav3::protocol::{
    Answer, GetRequest, Playback, PlayerInfo, PlaylistInfo, Repeat, Request, SongInfo, Widget,
};
use yamav3::proxy::Client;

fn song(name: &str) -> SongInfo {
    SongInfo { title: name.to_string(), id: name.to_string(), ..Default::default() }
}

fn playlist(id: &str, names: &[&str]) -> PlaylistInfo {
    PlaylistInfo {
        title: format!("list {id}"),
        length: names.len(),
        cover_url: String::new(),
        id: id.to_string(),
        songs: names.iter().map(|n| song(n)).collect(),
    }
}

#[test]
fn new_client_knows_nothing() {
    let client = Client::new("local".to_string());
    assert_eq!(client.name, "local");
    assert!(client.get_playlists().is_empty());
    assert_eq!(client.get_player_info().playback, Playback::Stop);
    assert_eq!(client.get_playlist(Some(0)), PlaylistInfo::default());
    assert!(client.get_songs(None).is_empty());
}

#[test]
fn player_info_replaces_the_snapshot_and_asks_for_a_refresh() {
    let mut client = Client::new("local".to_string());
    let info = PlayerInfo {
        playback: Playback::Play,
        song_info: Some(song("a")),
        volume: 30,
        repeat: Repeat::Song,
        position: 12,
        ..Default::default()
    };
    let event = client.handle_answer(Answer::PlayerInfo(info));
    assert!(matches!(event, Some(MyEvents::RefreshPlayerState)));
    let known = client.get_player_info();
    assert_eq!(known.playback, Playback::Play);
    assert_eq!(known.song_info, Some(song("a")));
    assert_eq!(known.volume, 30);
    assert_eq!(known.repeat, Repeat::Song);
    assert_eq!(known.position, 12);
    // a later snapshot replaces the whole of it
    client.handle_answer(Answer::PlayerInfo(PlayerInfo::default()));
    assert_eq!(client.get_player_info().song_info, None);
    assert_eq!(client.get_player_info().volume, 0);
}

#[test]
fn playlist_answer_replaces_by_id_or_appends() {
    let mut client = Client::new("local".to_string());
    client.handle_answer(Answer::PlaylistList(vec![playlist("rock", &[]), playlist("jazz", &[])]));
    assert!(client.handle_answer(Answer::Playlist(playlist("jazz", &["a", "b"]))).is_none());
    assert_eq!(client.get_playlists(), vec![playlist("rock", &[]), playlist("jazz", &["a", "b"])]);
    client.handle_answer(Answer::Playlist(playlist("folk", &["c"])));
    assert_eq!(
        client.get_playlists(),
        vec![playlist("rock", &[]), playlist("jazz", &["a", "b"]), playlist("folk", &["c"])]
    );
    assert_eq!(client.get_songs(Some(1)), vec![song("a"), song("b")]);
    assert_eq!(client.get_playlist(Some(2)), playlist("folk", &["c"]));
    assert_eq!(client.get_playlist(Some(3)), PlaylistInfo::default());
    assert!(client.get_songs(Some(9)).is_empty());
}

#[test]
fn upsert_replaces_the_first_of_the_same_id() {
    let mut lists = vec![playlist("p", &["a"]), playlist("q", &[]), playlist("p", &["z"])];
    assert_eq!(find_playlist(&lists, &"p".to_string()), Some(0));
    assert_eq!(find_playlist(&lists, &"q".to_string()), Some(1));
    assert_eq!(find_playlist(&lists, &"r".to_string()), None);
    upsert(&mut lists, playlist("p", &["n"]));
    assert_eq!(lists, vec![playlist("p", &["n"]), playlist("q", &[]), playlist("p", &["z"])]);
}

#[test]
fn widget_is_forwarded_verbatim() {
    let mut client = Client::new("remote".to_string());
    let widget = Widget::Alert { title: "Connect".to_string(), content: "Go there".to_string() };
    match client.handle_answer(Answer::Widget(widget)) {
        Some(MyEvents::Widget(Widget::Alert { title, content })) => {
            assert_eq!(title, "Connect");
            assert_eq!(content, "Go there");
        }
        other => panic!("unexpected event {other:?}"),
    }
    assert!(client.get_playlists().is_empty());
}

#[test]
fn bare_acknowledgement_changes_nothing() {
    let mut client = Client::new("remote".to_string());
    client.handle_answer(Answer::PlaylistList(vec![playlist("rock", &["a"])]));
    assert!(client.handle_answer(Answer::Done).is_none());
    assert_eq!(client.get_playlists(), vec![playlist("rock", &["a"])]);
}

#[test]
fn refresh_requests() {
    let mut client = Client::new("remote".to_string());
    client.handle_answer(Answer::PlaylistList(vec![playlist("rock", &["a"])]));
    assert_eq!(client.update_playlistlist(), Request::Get(GetRequest::PlaylistList));
    assert_eq!(client.update_player_info(), Request::Get(GetRequest::PlayerInfo));
    assert_eq!(
        client.update_playlist(Some(0)),
        Some(Request::Get(GetRequest::Playlist("rock".to_string())))
    );
    assert_eq!(client.update_playlist(Some(1)), None);
    assert_eq!(client.update_playlist(None), None);
}
