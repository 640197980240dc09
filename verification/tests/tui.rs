use yamav3::config::{clone_action, default_action, percent_of_key, Binding, Color, Config, Style};
use yamav3::events::{Action, MyEvents};
use yamav3::menu::MenuCtrl;
use yamav3::orchestrator::{OrchestratorBuilder, State};
use yamav3::protocol::{PlayerAction, SeekMode, Volume, Widget as InterfaceWidget};
use yamav3::tui::{
    build_player_string, centered_rec, duration_to_string, make_render_widget, playlist_lines,
    songs_title, source_lines, to_decimal, Error, Event, Key, Rect, RenderWidget, Reply,
    TermEvent, Tui, Widget,
};

fn alert() -> Widget {
    Widget::Widget(InterfaceWidget::Alert { title: "t".to_string(), content: "c".to_string() })
}

fn prompt() -> (Widget, tokio::sync::oneshot::Receiver<String>) {
    let (tx, rx) = tokio::sync::oneshot::channel();
    let widget = InterfaceWidget::PromptBox {
        title: "Connect".to_string(),
        content: "paste the code".to_string(),
        backchannel: tx,
    };
    (Widget::Widget(widget), rx)
}

fn press(tui: &mut Tui, key: Key) -> Reply {
    tui.handle_tui_event(TermEvent::Key { key, pressed: true, bound: None }).reply
}

fn typed(tui: &mut Tui, text: &str) {
    for c in text.chars() {
        press(tui, Key::Char(c));
    }
}

#[test]
fn decimal_digits() {
    assert_eq!(to_decimal(0), "0");
    assert_eq!(to_decimal(7), "7");
    assert_eq!(to_decimal(10), "10");
    assert_eq!(to_decimal(1234567890), "1234567890");
    assert_eq!(to_decimal(u64::MAX), u64::MAX.to_string());
}

#[test]
fn durations_as_clock_times() {
    assert_eq!(duration_to_string(0), "00:00");
    assert_eq!(duration_to_string(59), "00:59");
    assert_eq!(duration_to_string(60), "01:00");
    assert_eq!(duration_to_string(754), "12:34");
    assert_eq!(duration_to_string(3599), "59:59");
    assert_eq!(duration_to_string(3600), "01:00:00");
    assert_eq!(duration_to_string(3661), "01:01:01");
    assert_eq!(duration_to_string(360_000), "100:00:00");
}

#[test]
fn player_bar() {
    assert_eq!(build_player_string(0, 100, 10), "├────────┤");
    assert_eq!(build_player_string(50, 100, 10), "├████────┤");
    assert_eq!(build_player_string(100, 100, 10), "├████████┤");
    assert_eq!(build_player_string(99, 100, 10), "├████████┤");
    assert_eq!(build_player_string(1, 3, 3), "├─┤");
    assert_eq!(build_player_string(2, 3, 3), "├█┤");
    assert_eq!(build_player_string(30, 100, 10).chars().count(), 10);
}

#[test]
fn no_player_bar() {
    assert_eq!(build_player_string(5, 100, 2), "");
    assert_eq!(build_player_string(5, 100, 0), "");
    assert_eq!(build_player_string(0, 0, 10), "");
    assert_eq!(build_player_string(101, 100, 10), "");
}

#[test]
fn tui_error_message() {
    assert_eq!(Error.message(), "Error while sending event");
}

#[test]
fn widgets_capture_output_unless_they_are_alerts() {
    assert!(!alert().captures_output());
    assert!(prompt().0.captures_output());
    assert!(Widget::CommandPrompt.captures_output());
    let from: Widget =
        InterfaceWidget::Alert { title: "t".to_string(), content: "c".to_string() }.into();
    assert!(matches!(from, Widget::Widget(InterfaceWidget::Alert { .. })));
    assert!(matches!(Event::from(Widget::CommandPrompt), Event::Widget(Widget::CommandPrompt)));
}

#[test]
fn dialogs_as_they_are_drawn() {
    let typed = "so far".to_string();
    let drawn = make_render_widget(&alert(), &typed).unwrap();
    assert_eq!(drawn.title, "t");
    assert_eq!(drawn.content, "c");
    assert_eq!(drawn.prompt, None);
    assert_eq!(drawn.max_height, None);
    let drawn = make_render_widget(&prompt().0, &typed).unwrap();
    assert_eq!(drawn.title, "Connect");
    assert_eq!(drawn.prompt, Some(typed.clone()));
    assert_eq!(drawn.max_height, None);
    let drawn = make_render_widget(&Widget::CommandPrompt, &typed).unwrap();
    assert_eq!(drawn.title, "Command Prompt");
    assert_eq!(drawn.content, "");
    assert_eq!(drawn.prompt, Some(typed.clone()));
    assert_eq!(drawn.max_height, Some(3));
    let (tx, _rx) = tokio::sync::oneshot::channel::<usize>();
    let radio = Widget::Widget(InterfaceWidget::Radioboxes {
        title: "r".to_string(),
        content: vec![],
        backchannel: tx,
    });
    assert_eq!(make_render_widget(&radio, &typed), None);
}

#[test]
fn events_of_the_orchestrator() {
    let mut tui = Tui::new();
    assert!(!tui.in_prompt());
    assert!(tui.handle_event(Event::Widget(alert())).is_none());
    assert!(tui.in_prompt());
    let state = OrchestratorBuilder::new().build().state;
    assert!(tui.handle_event(Event::Render(Box::new(state))).is_some());
    assert_eq!(tui.widgets.len(), 1);
}

#[test]
fn focus_holds_and_resumes_rendering() {
    let mut tui = Tui::new();
    let outcome = tui.handle_tui_event(TermEvent::FocusGained);
    assert!(matches!(outcome.event, Some(MyEvents::Action(Action::PauseRender(false)))));
    let outcome = tui.handle_tui_event(TermEvent::FocusLost);
    assert!(matches!(outcome.event, Some(MyEvents::Action(Action::PauseRender(true)))));
    assert!(tui.handle_tui_event(TermEvent::Other).event.is_none());
}

#[test]
fn keys_give_their_bound_action_when_no_dialog_is_open() {
    let mut tui = Tui::new();
    let key = |pressed: bool, bound: Option<Action>| TermEvent::Key { key: Key::Char('q'), pressed, bound };
    let outcome = tui.handle_tui_event(key(true, Some(Action::Quit)));
    assert!(matches!(outcome.event, Some(MyEvents::Action(Action::Quit))));
    assert!(tui.handle_tui_event(key(false, Some(Action::Quit))).event.is_none());
    assert!(tui.handle_tui_event(key(true, None)).event.is_none());
    // with a dialog open the key goes to the dialog
    tui.handle_event(Event::Widget(Widget::CommandPrompt));
    assert!(tui.handle_tui_event(key(true, Some(Action::Quit))).event.is_none());
    assert_eq!(tui.prompt_string, "q");
}

#[test]
fn wheel_turns_add_up_to_one_move() {
    let mut tui = Tui::new();
    assert_eq!(tui.pending_offset(), None);
    tui.handle_tui_event(TermEvent::ScrollUp);
    tui.handle_tui_event(TermEvent::ScrollUp);
    tui.handle_tui_event(TermEvent::ScrollDown);
    tui.handle_tui_event(TermEvent::ScrollUp);
    assert_eq!(tui.pending_offset(), Some(MenuCtrl::Offset(2)));
    tui.offset_sent();
    assert_eq!(tui.pending_offset(), None);
    tui.handle_tui_event(TermEvent::ScrollDown);
    assert_eq!(tui.pending_offset(), Some(MenuCtrl::Offset(-1)));
    tui.offset = isize::MAX;
    tui.handle_tui_event(TermEvent::ScrollUp);
    assert_eq!(tui.offset, isize::MAX);
    tui.offset = isize::MIN;
    tui.handle_tui_event(TermEvent::ScrollDown);
    assert_eq!(tui.offset, isize::MIN);
}

#[test]
fn typing_into_a_command_prompt() {
    let mut tui = Tui::new();
    tui.handle_event(Event::Widget(Widget::CommandPrompt));
    typed(&mut tui, "devices lisx");
    press(&mut tui, Key::Backspace);
    press(&mut tui, Key::Char('t'));
    press(&mut tui, Key::Left);
    assert_eq!(tui.prompt_string, "devices list");
    // a key that is released does nothing
    tui.handle_tui_event(TermEvent::Key { key: Key::Char('!'), pressed: false, bound: None });
    assert_eq!(tui.prompt_string, "devices list");
    match press(&mut tui, Key::Enter) {
        Reply::Command(text) => assert_eq!(text, "devices list"),
        other => panic!("unexpected reply {other:?}"),
    }
    assert_eq!(tui.prompt_string, "");
    assert!(!tui.in_prompt());
}

#[test]
fn answering_a_prompt_of_a_backend() {
    let mut tui = Tui::new();
    let (widget, mut rx) = prompt();
    tui.handle_event(Event::Widget(widget));
    typed(&mut tui, "code");
    tui.handle_tui_event(TermEvent::Paste("-1234".to_string()));
    match press(&mut tui, Key::Enter) {
        Reply::Prompt { backchannel, text } => {
            assert_eq!(text, "code-1234");
            backchannel.send(text).unwrap();
        }
        other => panic!("unexpected reply {other:?}"),
    }
    assert_eq!(rx.try_recv().unwrap(), "code-1234");
    assert!(!tui.in_prompt());
}

#[test]
fn alerts_take_no_text() {
    let mut tui = Tui::new();
    tui.handle_event(Event::Widget(alert()));
    typed(&mut tui, "abc");
    assert_eq!(tui.prompt_string, "");
    tui.prompt_string = "kept".to_string();
    press(&mut tui, Key::Backspace);
    assert_eq!(tui.prompt_string, "kept");
    assert!(matches!(press(&mut tui, Key::Enter), Reply::Nothing));
    assert!(!tui.in_prompt());
}

#[test]
fn escape_closes_the_dialog_and_drops_the_text() {
    let mut tui = Tui::new();
    tui.handle_event(Event::Widget(alert()));
    tui.handle_event(Event::Widget(Widget::CommandPrompt));
    typed(&mut tui, "abc");
    press(&mut tui, Key::Esc);
    assert_eq!(tui.prompt_string, "");
    assert_eq!(tui.widgets.len(), 1);
    // backspace on an empty text does nothing
    tui.handle_event(Event::Widget(Widget::CommandPrompt));
    press(&mut tui, Key::Backspace);
    assert_eq!(tui.prompt_string, "");
    // pasted text is dropped when no dialog is open
    let mut tui = Tui::new();
    tui.handle_tui_event(TermEvent::Paste("x".to_string()));
    assert_eq!(tui.prompt_string, "");
    assert!(matches!(tui.handle_widget_send(), Reply::Nothing));
}

#[test]
fn default_key_bindings() {
    assert_eq!(default_action(Key::Char('q')), Some(Action::Quit));
    assert_eq!(default_action(Key::Esc), Some(Action::CloseAlert));
    assert_eq!(default_action(Key::Char('j')), Some(Action::Menu(MenuCtrl::Next)));
    assert_eq!(default_action(Key::Char('k')), Some(Action::Menu(MenuCtrl::Prev)));
    assert_eq!(default_action(Key::Char('l')), Some(Action::Menu(MenuCtrl::NextMenu)));
    assert_eq!(default_action(Key::Char('h')), Some(Action::Menu(MenuCtrl::PrevMenu)));
    assert_eq!(default_action(Key::Char(' ')), Some(Action::Player(PlayerAction::PlayPauseToggle)));
    assert_eq!(default_action(Key::Char('a')), Some(Action::ToggleAuto));
    assert_eq!(default_action(Key::Char('g')), Some(Action::GoToCurrent));
    assert_eq!(default_action(Key::Char(':')), Some(Action::CommandPrompt));
    assert_eq!(default_action(Key::Char('<')), Some(Action::Player(PlayerAction::Prev)));
    assert_eq!(default_action(Key::Char('>')), Some(Action::Player(PlayerAction::Next)));
    assert_eq!(default_action(Key::Char('r')), Some(Action::Player(PlayerAction::CycleRepeat)));
    assert_eq!(default_action(Key::Char('y')), Some(Action::Player(PlayerAction::ShuffleToggle)));
    assert_eq!(
        default_action(Key::Char('d')),
        Some(Action::Player(PlayerAction::SetVolume(Volume::Relative(-5))))
    );
    assert_eq!(
        default_action(Key::Char('f')),
        Some(Action::Player(PlayerAction::SetVolume(Volume::Relative(5))))
    );
    assert_eq!(
        default_action(Key::Left),
        Some(Action::Player(PlayerAction::Seek { dt: -5, mode: SeekMode::Relative }))
    );
    assert_eq!(
        default_action(Key::Right),
        Some(Action::Player(PlayerAction::Seek { dt: 5, mode: SeekMode::Relative }))
    );
    assert_eq!(default_action(Key::Char('z')), None);
    assert_eq!(default_action(Key::Enter), None);
    assert_eq!(default_action(Key::Backspace), None);
    assert_eq!(default_action(Key::Other), None);
}

#[test]
fn number_row_seeks_by_tenths() {
    let row = ['à', '&', 'é', '"', '\'', '(', '-', 'è', '_', 'ç'];
    for (i, c) in row.iter().enumerate() {
        assert_eq!(percent_of_key(*c), Some(10 * i as i64));
        assert_eq!(
            default_action(Key::Char(*c)),
            Some(Action::Player(PlayerAction::Seek {
                dt: 10 * i as i64,
                mode: SeekMode::AbsolutePercent
            }))
        );
    }
    assert_eq!(percent_of_key('1'), None);
}

#[test]
fn settings_of_the_player_as_lines() {
    let player = yamav3::protocol::PlayerInfo {
        autoplay: true,
        repeat: yamav3::protocol::Repeat::Playlist,
        shuffled: false,
        volume: 85,
        ..Default::default()
    };
    assert_eq!(
        yamav3::tui::info_lines(&player),
        vec!["Auto: true", "Repeat: Playlist", "Shuffle: false", "Volume: 85/100"]
    );
}

#[test]
fn player_as_text() {
    let song = yamav3::protocol::SongInfo {
        title: "Tune".to_string(),
        duration: 200,
        ..Default::default()
    };
    let player = yamav3::protocol::PlayerInfo {
        song_info: Some(song),
        position: 100,
        ..Default::default()
    };
    assert_eq!(yamav3::tui::player_text(&player, 12), "01:40/03:20 Tune\n├████────┤");
    // too narrow for a bar
    assert_eq!(yamav3::tui::player_text(&player, 1), "01:40/03:20 Tune\n");
    let idle = yamav3::protocol::PlayerInfo::default();
    assert_eq!(yamav3::tui::player_text(&idle, 12), "00:00/00:00 \n");
}

#[test]
fn dialog_in_the_middle_of_the_screen() {
    let screen = Rect { x: 0, y: 0, width: 80, height: 24 };
    assert_eq!(centered_rec(screen, None), Rect { x: 10, y: 3, width: 60, height: 18 });
    assert_eq!(centered_rec(screen, Some(3)), Rect { x: 10, y: 11, width: 60, height: 3 });
    // higher than the screen: it starts at the top
    assert_eq!(centered_rec(screen, Some(60)), Rect { x: 10, y: 0, width: 60, height: 60 });
    let huge = Rect { x: 0, y: 0, width: u16::MAX, height: u16::MAX };
    assert_eq!(centered_rec(huge, None), Rect { x: 8192, y: 8192, width: 49151, height: 49151 });
    let none = Rect { x: 0, y: 0, width: 0, height: 0 };
    assert_eq!(centered_rec(none, None), none);
}

#[test]
fn dialog_text() {
    let dialog = |content: &str, prompt: Option<&str>| RenderWidget {
        title: "t".to_string(),
        content: content.to_string(),
        prompt: prompt.map(|p| p.to_string()),
        max_height: None,
    };
    assert_eq!(dialog("content", None).text(), "content");
    assert_eq!(dialog("content", Some("typed")).text(), "content\ntyped");
    assert_eq!(dialog("", Some("typed")).text(), "typed");
    assert_eq!(dialog("", None).text(), "");
}

fn shown() -> State {
    let mut builder = OrchestratorBuilder::new();
    builder.add_client("local".to_string());
    builder.add_client("remote".to_string());
    let mut state = builder.build().state;
    state.playlists.entries = vec![yamav3::protocol::PlaylistInfo {
        title: "Mix".to_string(),
        length: 12,
        songs: vec![Default::default(), Default::default()],
        ..Default::default()
    }];
    state
}

#[test]
fn sources_are_listed_with_a_mark_on_the_one_that_plays() {
    let mut state = shown();
    assert_eq!(source_lines(&state), vec!["local", "remote"]);
    state.active_player = Some(1);
    assert_eq!(source_lines(&state), vec!["local", "remote \u{f001}"]);
    state.active_player = Some(7);
    assert_eq!(source_lines(&state), vec!["local", "remote"]);
}

#[test]
fn playlists_are_listed_with_what_is_loaded_of_them() {
    let state = shown();
    assert_eq!(playlist_lines(&state), vec!["Mix (2/12)"]);
    assert_eq!(songs_title(&state), "Songs");
    let mut state = state;
    state.playlists.select = Some(0);
    assert_eq!(songs_title(&state), "Mix");
    state.playlists.select = Some(3);
    assert_eq!(songs_title(&state), "Songs");
}

#[test]
fn default_settings() {
    let config = Config::with_defaults(
        "/config/yt_secrets.json".to_string(),
        "/config/spotify_secrets.json".to_string(),
        vec!["/home/me/Music".to_string()],
    );
    assert_eq!(config.yt_secret_location, "/config/yt_secrets.json");
    assert_eq!(config.spotify_secret_location, "/config/spotify_secrets.json");
    assert_eq!(config.folders, vec!["/home/me/Music".to_string()]);
    assert_eq!(config.keymap.len(), 28);
    let keys = [
        Key::Char('q'), Key::Esc, Key::Char('j'), Key::Char('k'), Key::Char('l'), Key::Char('h'),
        Key::Char(' '), Key::Char('a'), Key::Left, Key::Right, Key::Char('<'), Key::Char('>'),
        Key::Char('d'), Key::Char('f'), Key::Char('g'), Key::Char('r'), Key::Char('y'),
        Key::Char('&'), Key::Char('é'), Key::Char('"'), Key::Char('\''), Key::Char('('),
        Key::Char('-'), Key::Char('è'), Key::Char('_'), Key::Char('ç'), Key::Char('à'),
        Key::Char(':'),
    ];
    for key in keys {
        assert!(default_action(key).is_some());
        assert_eq!(config.get_action(key), default_action(key));
    }
    for key in [Key::Char('z'), Key::Enter, Key::Backspace, Key::Other, Key::Char('Q')] {
        assert_eq!(config.get_action(key), None);
        assert_eq!(default_action(key), None);
    }
    assert_eq!(config.get_border_style(true), Style { fg: Some(Color::Rgb(183, 189, 248)), bg: None });
    assert_eq!(config.get_border_style(false), Style { fg: Some(Color::Rgb(110, 115, 141)), bg: None });
    assert_eq!(
        config.get_style(true),
        Style { fg: Some(Color::Rgb(202, 211, 245)), bg: Some(Color::Reset) }
    );
    assert_eq!(
        config.get_style(false),
        Style { fg: Some(Color::Rgb(110, 115, 141)), bg: Some(Color::Reset) }
    );
    assert_eq!(
        config.get_highlight_style(true),
        Style { fg: Some(Color::Rgb(202, 211, 245)), bg: Some(Color::Rgb(91, 96, 120)) }
    );
    assert_eq!(
        config.get_highlight_style(false),
        Style { fg: Some(Color::Reset), bg: Some(Color::Rgb(110, 115, 141)) }
    );
}

#[test]
fn the_first_binding_of_a_key_counts() {
    let mut config = Config::with_defaults(String::new(), String::new(), vec![]);
    config.keymap = vec![
        Binding { key: Key::Char('x'), action: Action::Quit },
        Binding { key: Key::Char('x'), action: Action::Update },
        Binding { key: Key::Enter, action: Action::Alert("hello".to_string()) },
    ];
    assert_eq!(config.get_action(Key::Char('x')), Some(Action::Quit));
    assert_eq!(config.get_action(Key::Enter), Some(Action::Alert("hello".to_string())));
    assert_eq!(config.get_action(Key::Char('q')), None);
    assert_eq!(clone_action(&Action::Alert("a".to_string())), Action::Alert("a".to_string()));
}
