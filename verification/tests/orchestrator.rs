use yamav3::events::{Action, MyEvents};
use yamav3::menu::{Menu, MenuCtrl};
use yamav3::orchestrator::{Effect, Orchestrator, OrchestratorBuilder};
use yamav3::protocol::{
    Answer, GetRequest, PlayerAction, PlayerInfo, PlaylistInfo, Request, SongInfo, Widget,
};

fn song(name: &str) -> SongInfo {
    SongInfo { title: name.to_string(), id: name.to_string(), ..Default::default() }
}

fn playlist(id: &str, names: &[&str]) -> PlaylistInfo {
    PlaylistInfo {
        title: format!("list {id}"),
        length: names.len(),
        cover_url: String::new(),
        id: id.to_string(),
        songs: names.iter().map(|n| song(n)).collect(),
    }
}

fn sends(effects: &[Effect]) -> Vec<(usize, Request)> {
    effects
        .iter()
        .filter_map(|e| match e {
            Effect::Send { client, request } => Some((*client, request.clone())),
            _ => None,
        })
        .collect()
}

fn renders(effects: &[Effect]) -> usize {
    effects.iter().filter(|e| matches!(e, Effect::Render)).count()
}

/// Two backends; the first knows two playlists, the second knows one.
fn orchestrator() -> Orchestrator {
    let mut builder = OrchestratorBuilder::new();
    builder.add_client("local".to_string());
    builder.add_client("remote".to_string());
    let mut orchestrator = builder.build();
    orchestrator.start();
    let lists = vec![playlist("rock", &["a", "b", "c"]), playlist("jazz", &["d"])];
    assert!(orchestrator.update_client(0, Answer::PlaylistList(lists)).is_none());
    assert!(orchestrator
        .update_client(1, Answer::PlaylistList(vec![playlist("blues", &["x", "y"])]))
        .is_none());
    orchestrator.update_state();
    orchestrator
}

fn menu(orchestrator: &mut Orchestrator, action: MenuCtrl) -> Vec<Effect> {
    let mut out = Vec::new();
    orchestrator.handle_menu(action, &mut out);
    out
}

fn in_range(orchestrator: &Orchestrator) -> bool {
    let s = &orchestrator.state;
    let ok = |select: Option<usize>, len: usize| match select {
        Some(i) => i < len,
        None => true,
    };
    ok(s.clients.select, s.clients.entries.len())
        && ok(s.playlists.select, s.playlists.entries.len())
        && ok(s.songs.select, s.songs.entries.len())
        && s.clients.entries.len() == orchestrator.clients.len()
}

#[test]
fn build_shows_the_backends_by_name() {
    let mut builder = OrchestratorBuilder::new();
    builder.add_client("one".to_string());
    builder.add_client("two".to_string());
    let orchestrator = builder.build();
    assert_eq!(orchestrator.state.clients.entries, vec!["one".to_string(), "two".to_string()]);
    assert_eq!(orchestrator.state.clients.select, None);
    assert_eq!(orchestrator.state.active_player, None);
    assert_eq!(orchestrator.state.active_menu, Menu::Client);
    assert!(orchestrator.tui_refresh);
    assert!(orchestrator.state.alerts.is_empty());
}

#[test]
fn start_selects_the_first_backend_if_any() {
    let mut orchestrator = OrchestratorBuilder::new().build();
    orchestrator.start();
    assert_eq!(orchestrator.state.clients.select, None);
    let mut builder = OrchestratorBuilder::new();
    builder.add_client("one".to_string());
    let mut orchestrator = builder.build();
    orchestrator.start();
    assert_eq!(orchestrator.state.clients.select, Some(0));
}

#[test]
fn menu_walk_stays_in_range() {
    let mut o = orchestrator();
    let walk = [
        MenuCtrl::Prev,
        MenuCtrl::Next,
        MenuCtrl::Next,
        MenuCtrl::Next,
        MenuCtrl::NextMenu,
        MenuCtrl::Next,
        MenuCtrl::Next,
        MenuCtrl::NextMenu,
        MenuCtrl::Next,
        MenuCtrl::Next,
        MenuCtrl::Next,
        MenuCtrl::NextMenu,
        MenuCtrl::Prev,
        MenuCtrl::PrevMenu,
        MenuCtrl::Prev,
        MenuCtrl::Prev,
        MenuCtrl::PrevMenu,
        MenuCtrl::PrevMenu,
        MenuCtrl::Prev,
        MenuCtrl::Offset(40),
        MenuCtrl::Offset(-40),
    ];
    for step in walk {
        menu(&mut o, step);
        assert!(in_range(&o));
    }
}

#[test]
fn next_and_prev_move_within_the_focused_level() {
    let mut o = orchestrator();
    menu(&mut o, MenuCtrl::Next);
    assert_eq!(o.state.clients.select, Some(1));
    menu(&mut o, MenuCtrl::Next);
    assert_eq!(o.state.clients.select, Some(1));
    menu(&mut o, MenuCtrl::Prev);
    menu(&mut o, MenuCtrl::Prev);
    assert_eq!(o.state.clients.select, Some(0));
}

#[test]
fn next_menu_is_terminal_at_song_and_prev_menu_at_client() {
    let mut o = orchestrator();
    menu(&mut o, MenuCtrl::NextMenu);
    assert_eq!(o.state.active_menu, Menu::Playlist);
    assert_eq!(o.state.playlists.select, Some(0));
    menu(&mut o, MenuCtrl::NextMenu);
    assert_eq!(o.state.active_menu, Menu::Song);
    assert_eq!(o.state.songs.select, Some(0));
    menu(&mut o, MenuCtrl::NextMenu);
    assert_eq!(o.state.active_menu, Menu::Song);
    menu(&mut o, MenuCtrl::PrevMenu);
    assert_eq!(o.state.active_menu, Menu::Playlist);
    assert_eq!(o.state.songs.select, None);
    menu(&mut o, MenuCtrl::PrevMenu);
    assert_eq!(o.state.active_menu, Menu::Client);
    assert_eq!(o.state.playlists.select, None);
    menu(&mut o, MenuCtrl::PrevMenu);
    assert_eq!(o.state.active_menu, Menu::Client);
    assert_eq!(o.state.clients.select, Some(0));
}

#[test]
fn selecting_a_new_source_resets_playlist_and_song() {
    let mut o = orchestrator();
    menu(&mut o, MenuCtrl::NextMenu);
    menu(&mut o, MenuCtrl::NextMenu);
    menu(&mut o, MenuCtrl::Next);
    assert_eq!(o.state.playlists.select, Some(0));
    assert_eq!(o.state.songs.select, Some(1));
    menu(&mut o, MenuCtrl::PrevMenu);
    menu(&mut o, MenuCtrl::PrevMenu);
    menu(&mut o, MenuCtrl::Next);
    assert_eq!(o.state.clients.select, Some(1));
    assert_eq!(o.state.playlists.select, None);
    assert_eq!(o.state.songs.select, None);
    assert_eq!(o.state.playlists.entries, vec![playlist("blues", &["x", "y"])]);
    assert!(o.state.songs.entries.is_empty());
}

#[test]
fn selecting_a_new_playlist_resets_the_song() {
    let mut o = orchestrator();
    menu(&mut o, MenuCtrl::NextMenu);
    menu(&mut o, MenuCtrl::NextMenu);
    menu(&mut o, MenuCtrl::Next);
    assert_eq!(o.state.songs.select, Some(1));
    menu(&mut o, MenuCtrl::PrevMenu);
    menu(&mut o, MenuCtrl::Next);
    assert_eq!(o.state.playlists.select, Some(1));
    assert_eq!(o.state.songs.select, None);
    assert_eq!(o.state.songs.entries, vec![song("d")]);
}

#[test]
fn a_menu_move_refreshes_the_focused_backend_and_renders() {
    let mut o = orchestrator();
    menu(&mut o, MenuCtrl::NextMenu);
    let out = menu(&mut o, MenuCtrl::Next);
    assert_eq!(
        sends(&out),
        vec![
            (0, Request::Get(GetRequest::PlaylistList)),
            (0, Request::Get(GetRequest::Playlist("jazz".to_string()))),
        ]
    );
    assert_eq!(renders(&out), 1);
    assert!(matches!(out.last(), Some(Effect::Render)));
}

#[test]
fn player_action_without_active_backend_is_dropped() {
    let mut o = orchestrator();
    let before = format!("{:?}", o);
    let mut out = Vec::new();
    o.handle_player(PlayerAction::Next, &mut out);
    assert!(out.is_empty());
    assert_eq!(format!("{:?}", o), before);
    o.handle_event(MyEvents::Action(Action::Player(PlayerAction::Stop)), &mut out);
    assert!(out.is_empty());
}

#[test]
fn player_action_goes_to_the_active_backend_only() {
    let mut o = orchestrator();
    o.state.active_player = Some(1);
    let mut out = Vec::new();
    o.handle_player(PlayerAction::Next, &mut out);
    assert_eq!(sends(&out), vec![(1, Request::PlayerAction(PlayerAction::Next))]);
    assert_eq!(renders(&out), 1);
}

#[test]
fn toggle_auto_on_makes_the_selected_backend_active() {
    let mut o = orchestrator();
    menu(&mut o, MenuCtrl::NextMenu);
    menu(&mut o, MenuCtrl::Next);
    let mut out = Vec::new();
    o.toggle_auto(&mut out);
    assert_eq!(o.state.active_player, Some(0));
    assert_eq!(
        sends(&out),
        vec![
            (0, Request::PlayerAction(PlayerAction::SetTrackList(playlist("jazz", &["d"])))),
            (0, Request::PlayerAction(PlayerAction::Autoplay(true))),
        ]
    );
}

#[test]
fn toggle_auto_without_selected_playlist_does_nothing() {
    let mut o = orchestrator();
    let mut out = Vec::new();
    o.toggle_auto(&mut out);
    assert!(out.is_empty());
    assert_eq!(o.state.active_player, None);
}

#[test]
fn toggle_auto_off_ends_autoplay_and_stops() {
    let mut o = orchestrator();
    o.state.active_player = Some(1);
    let info = PlayerInfo { autoplay: true, ..Default::default() };
    assert!(matches!(
        o.update_client(1, Answer::PlayerInfo(info)),
        Some(MyEvents::RefreshPlayerState)
    ));
    o.update_state();
    assert!(o.state.player.autoplay);
    let mut out = Vec::new();
    o.toggle_auto(&mut out);
    assert_eq!(
        sends(&out),
        vec![
            (1, Request::PlayerAction(PlayerAction::Autoplay(false))),
            (1, Request::PlayerAction(PlayerAction::Stop)),
        ]
    );
    assert_eq!(o.state.active_player, Some(1));
}

#[test]
fn closed_backend_leaves_the_list() {
    let mut o = orchestrator();
    o.state.active_player = Some(0);
    o.client_closed(0);
    assert_eq!(o.clients.len(), 1);
    assert_eq!(o.state.clients.entries, vec!["remote".to_string()]);
    assert_eq!(o.state.active_player, None);
    assert_eq!(o.state.clients.select, None);
    assert_eq!(o.state.playlists.select, None);
    assert_eq!(o.state.songs.select, None);
    assert!(in_range(&o));
    let mut out = Vec::new();
    o.handle_player(PlayerAction::Next, &mut out);
    assert!(out.is_empty());
}

#[test]
fn closed_backend_keeps_the_active_one_active() {
    let mut o = orchestrator();
    o.state.active_player = Some(1);
    o.client_closed(0);
    assert_eq!(o.state.active_player, Some(0));
    assert_eq!(o.clients[0].name, "remote");
    let mut o = orchestrator();
    o.state.active_player = Some(0);
    o.client_closed(1);
    assert_eq!(o.state.active_player, Some(0));
    assert_eq!(o.clients[0].name, "local");
    o.client_closed(5);
    assert_eq!(o.clients.len(), 1);
}

#[test]
fn refresh_asks_the_selected_and_the_active_backend() {
    let mut o = orchestrator();
    o.state.active_player = Some(1);
    let mut out = Vec::new();
    o.refresh(&mut out);
    assert_eq!(
        sends(&out),
        vec![
            (0, Request::Get(GetRequest::PlaylistList)),
            (1, Request::Get(GetRequest::PlayerInfo)),
        ]
    );
}

#[test]
fn render_can_be_held() {
    let mut o = orchestrator();
    let mut out = Vec::new();
    o.handle_action(Action::Render, &mut out);
    assert_eq!(renders(&out), 1);
    o.handle_action(Action::PauseRender(false), &mut out);
    o.handle_action(Action::Render, &mut out);
    assert_eq!(renders(&out), 1);
    o.handle_action(Action::PauseRender(true), &mut out);
    o.handle_action(Action::Render, &mut out);
    assert_eq!(renders(&out), 2);
}

#[test]
fn alerts_pile_up_and_close_latest_first() {
    let mut o = orchestrator();
    let mut out = Vec::new();
    o.handle_action(Action::CloseAlert, &mut out);
    o.handle_action(Action::Alert("first".to_string()), &mut out);
    o.handle_action(Action::Alert("second".to_string()), &mut out);
    assert_eq!(o.state.alerts, vec!["first".to_string(), "second".to_string()]);
    assert!(!o.state.is_active_menu(Menu::Client));
    o.handle_action(Action::CloseAlert, &mut out);
    assert_eq!(o.state.alerts, vec!["first".to_string()]);
    o.handle_action(Action::CloseAlert, &mut out);
    assert!(o.state.is_active_menu(Menu::Client));
    assert!(!o.state.is_active_menu(Menu::Song));
    assert!(out.is_empty());
}

#[test]
fn quit_and_command_prompt() {
    let mut o = orchestrator();
    let mut out = Vec::new();
    o.handle_action(Action::Quit, &mut out);
    o.handle_action(Action::CommandPrompt, &mut out);
    assert!(matches!(out[0], Effect::Shutdown));
    assert!(matches!(out[1], Effect::CommandPrompt));
    assert_eq!(out.len(), 2);
}

#[test]
fn events_from_backends() {
    let mut o = orchestrator();
    let mut out = Vec::new();
    o.handle_event(MyEvents::RefreshPlayerState, &mut out);
    assert!(matches!(out[0], Effect::Control));
    assert!(matches!(out[1], Effect::Render));
    out.clear();
    let alert = Widget::Alert { title: "t".to_string(), content: "c".to_string() };
    o.handle_event(MyEvents::Widget(alert), &mut out);
    assert!(matches!(&out[0], Effect::ShowWidget(Widget::Alert { title, .. }) if title == "t"));
    out.clear();
    o.handle_event(MyEvents::Command("devices list".to_string()), &mut out);
    assert_eq!(sends(&out), vec![(0, Request::Command("devices list".to_string()))]);
}

#[test]
fn go_to_current_selects_the_playing_track() {
    let mut o = orchestrator();
    o.state.active_player = Some(1);
    let info = PlayerInfo {
        tracklist: playlist("blues", &["x", "y"]),
        track_index: Some(1),
        ..Default::default()
    };
    o.update_client(1, Answer::PlayerInfo(info));
    o.update_state();
    o.select_playing();
    assert_eq!(o.state.clients.select, Some(1));
    assert_eq!(o.state.playlists.select, Some(0));
    assert_eq!(o.state.songs.select, Some(1));
    assert_eq!(o.state.active_menu, Menu::Song);
    assert!(in_range(&o));
}

#[test]
fn go_to_current_without_player_changes_nothing() {
    let mut o = orchestrator();
    o.select_playing();
    assert_eq!(o.state.active_menu, Menu::Client);
    assert_eq!(o.state.clients.select, Some(0));
}

#[test]
fn update_state_keeps_selections_in_range_when_lists_shrink() {
    let mut o = orchestrator();
    menu(&mut o, MenuCtrl::NextMenu);
    menu(&mut o, MenuCtrl::Next);
    assert_eq!(o.state.playlists.select, Some(1));
    o.update_client(0, Answer::PlaylistList(vec![playlist("rock", &["a"])]));
    o.update_state();
    assert_eq!(o.state.playlists.select, Some(0));
    assert!(in_range(&o));
    o.update_client(0, Answer::PlaylistList(vec![]));
    o.update_state();
    assert_eq!(o.state.playlists.select, None);
    assert!(in_range(&o));
}

#[test]
fn answers_for_a_backend_that_is_not_there_are_dropped() {
    let mut o = orchestrator();
    assert!(o.update_client(7, Answer::Done).is_none());
    assert_eq!(o.clients.len(), 2);
}

#[test]
fn the_invariant_can_be_checked() {
    let mut o = orchestrator();
    assert!(o.is_well_formed());
    menu(&mut o, MenuCtrl::NextMenu);
    o.client_closed(0);
    assert!(o.is_well_formed());
    o.state.songs.select = Some(3);
    assert!(!o.is_well_formed());
    o.state.songs.select = None;
    o.state.clients.entries[0] = "someone else".to_string();
    assert!(!o.is_well_formed());
    o.state.clients.entries.clear();
    assert!(!o.is_well_formed());
}
