use yamav3::playlist::{is_order, PlaylistHandler};
use yamav3::protocol::{PlaylistInfo, SongInfo};

fn song(name: &str) -> SongInfo {
    SongInfo {
        title: name.to_string(),
        artist: String::new(),
        cover_url: String::new(),
        id: name.to_string(),
        url: format!("file:///music/{name}.ogg"),
        duration: 180,
    }
}

fn playlist(names: &[&str]) -> PlaylistInfo {
    PlaylistInfo {
        title: "mix".to_string(),
        length: names.len(),
        cover_url: String::new(),
        id: "mix-1".to_string(),
        songs: names.iter().map(|n| song(n)).collect(),
    }
}

#[test]
fn new_handler_holds_nothing() {
    let handler = PlaylistHandler::new();
    assert!(!handler.is_some());
    assert_eq!(handler.position(), None);
    assert_eq!(handler.get_current(), None);
    assert_eq!(handler.current_song(), None);
    assert!(!handler.is_at_end());
    assert_eq!(handler.play_order(), Vec::<usize>::new());
}

#[test]
fn set_playlist_starts_at_first_track_in_listed_order() {
    let mut handler = PlaylistHandler::new();
    handler.set_playlist(playlist(&["a", "b", "c"]));
    assert!(handler.is_some());
    assert_eq!(handler.position(), Some(0));
    assert_eq!(handler.play_order(), vec![0, 1, 2]);
    assert_eq!(handler.current_song(), Some(song("a")));
}

#[test]
fn empty_playlist_is_ignored() {
    let mut handler = PlaylistHandler::new();
    handler.set_playlist(playlist(&["a", "b"]));
    handler.next();
    handler.set_playlist(playlist(&[]));
    assert_eq!(handler.position(), Some(1));
    assert_eq!(handler.tracks(), playlist(&["a", "b"]));
}

#[test]
fn next_stops_at_last_and_prev_at_first() {
    let mut handler = PlaylistHandler::new();
    handler.set_playlist(playlist(&["a", "b", "c"]));
    handler.prev();
    assert_eq!(handler.position(), Some(0));
    handler.next();
    handler.next();
    assert_eq!(handler.position(), Some(2));
    assert!(handler.is_at_end());
    handler.next();
    assert_eq!(handler.position(), Some(2));
    handler.prev();
    assert_eq!(handler.position(), Some(1));
    assert!(!handler.is_at_end());
}

#[test]
fn shuffle_keeps_every_track_once_and_the_cursor() {
    let mut handler = PlaylistHandler::new();
    handler.set_playlist(playlist(&["a", "b", "c", "d", "e", "f", "g", "h"]));
    handler.next();
    handler.next();
    handler.shuffle();
    assert_eq!(handler.position(), Some(2));
    let mut order = handler.play_order();
    order.sort();
    assert_eq!(order, vec![0, 1, 2, 3, 4, 5, 6, 7]);
}

#[test]
fn shuffle_changes_the_order_sooner_or_later() {
    let mut handler = PlaylistHandler::new();
    handler.set_playlist(playlist(&["a", "b", "c", "d", "e", "f", "g", "h"]));
    let listed = handler.play_order();
    let mut changed = false;
    for _ in 0..64 {
        handler.shuffle();
        if handler.play_order() != listed {
            changed = true;
        }
    }
    assert!(changed);
}

#[test]
fn shuffle_then_unshuffle_restores_listed_order() {
    let mut handler = PlaylistHandler::new();
    handler.set_playlist(playlist(&["a", "b", "c", "d", "e"]));
    handler.shuffle();
    handler.unshuffle();
    assert_eq!(handler.play_order(), vec![0, 1, 2, 3, 4]);
}

#[test]
fn get_current_follows_the_play_order() {
    let mut handler = PlaylistHandler::new();
    handler.set_playlist(playlist(&["a", "b", "c", "d"]));
    handler.shuffle();
    handler.next();
    let order = handler.play_order();
    assert_eq!(handler.get_current(), Some(order[1]));
    let names = ["a", "b", "c", "d"];
    assert_eq!(handler.current_song(), Some(song(names[order[1]])));
}

#[test]
fn rewind_puts_cursor_on_first_position() {
    let mut handler = PlaylistHandler::new();
    handler.rewind();
    assert_eq!(handler.position(), None);
    handler.set_playlist(playlist(&["a", "b", "c"]));
    handler.next();
    handler.rewind();
    assert_eq!(handler.position(), Some(0));
}

#[test]
fn play_orders_visit_each_track_once() {
    assert!(is_order(&vec![], 0));
    assert!(is_order(&vec![0], 1));
    assert!(is_order(&vec![2, 0, 1], 3));
    assert!(!is_order(&vec![0, 1], 3));
    assert!(!is_order(&vec![0, 1, 3], 3));
    assert!(!is_order(&vec![0, 1, 1], 3));
    assert!(!is_order(&vec![1, 0, 1], 3));
}

#[test]
fn handlers_keep_their_invariant() {
    let mut handler = PlaylistHandler::new();
    assert!(handler.is_well_formed());
    handler.set_playlist(playlist(&["a", "b", "c"]));
    handler.shuffle();
    handler.next();
    assert!(handler.is_well_formed());
}
