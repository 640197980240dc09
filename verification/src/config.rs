//! The keys and what they do, unless the user says otherwise.
use crate::events::Action;
use crate::menu::MenuCtrl;
use crate::protocol::{PlayerAction, SeekMode, Volume};
use crate::tui::Key;
use vstd::prelude::*;

verus! {

/// The share of the track, in percent, that a key of the number row seeks
/// to: the keys of a French keyboard, from `&` for a tenth to `ç` for nine
/// tenths, and `à` for the start.
pub open spec fn percent_key(c: char) -> Option<i64> {
    if c == '&' {
        Some(10)
    } else if c == 'é' {
        Some(20)
    } else if c == '"' {
        Some(30)
    } else if c == '\'' {
        Some(40)
    } else if c == '(' {
        Some(50)
    } else if c == '-' {
        Some(60)
    } else if c == 'è' {
        Some(70)
    } else if c == '_' {
        Some(80)
    } else if c == 'ç' {
        Some(90)
    } else if c == 'à' {
        Some(0)
    } else {
        None
    }
}

/// The share of the track, in percent, that a key of the number row seeks to.
pub fn percent_of_key(c: char) -> (r: Option<i64>)
    ensures
        r == percent_key(c),
{
    if c == '&' {
        Some(10)
    } else if c == 'é' {
        Some(20)
    } else if c == '"' {
        Some(30)
    } else if c == '\'' {
        Some(40)
    } else if c == '(' {
        Some(50)
    } else if c == '-' {
        Some(60)
    } else if c == 'è' {
        Some(70)
    } else if c == '_' {
        Some(80)
    } else if c == 'ç' {
        Some(90)
    } else if c == 'à' {
        Some(0)
    } else {
        None
    }
}

/// The action that a character key is bound to by default.
pub open spec fn default_char_binding(c: char) -> Option<Action> {
    if c == 'q' {
        Some(Action::Quit)
    } else if c == 'j' {
        Some(Action::Menu(MenuCtrl::Next))
    } else if c == 'k' {
        Some(Action::Menu(MenuCtrl::Prev))
    } else if c == 'l' {
        Some(Action::Menu(MenuCtrl::NextMenu))
    } else if c == 'h' {
        Some(Action::Menu(MenuCtrl::PrevMenu))
    } else if c == ' ' {
        Some(Action::Player(PlayerAction::PlayPauseToggle))
    } else if c == 'a' {
        Some(Action::ToggleAuto)
    } else if c == '<' {
        Some(Action::Player(PlayerAction::Prev))
    } else if c == '>' {
        Some(Action::Player(PlayerAction::Next))
    } else if c == 'd' {
        Some(Action::Player(PlayerAction::SetVolume(Volume::Relative(-5isize))))
    } else if c == 'f' {
        Some(Action::Player(PlayerAction::SetVolume(Volume::Relative(5isize))))
    } else if c == 'g' {
        Some(Action::GoToCurrent)
    } else if c == 'r' {
        Some(Action::Player(PlayerAction::CycleRepeat))
    } else if c == 'y' {
        Some(Action::Player(PlayerAction::ShuffleToggle))
    } else if c == ':' {
        Some(Action::CommandPrompt)
    } else {
        match percent_key(c) {
            Some(percent) => Some(
                Action::Player(PlayerAction::Seek { dt: percent, mode: SeekMode::AbsolutePercent }),
            ),
            None => None,
        }
    }
}

/// The action that a key is bound to by default.
pub open spec fn default_binding(key: Key) -> Option<Action> {
    match key {
        Key::Char(c) => default_char_binding(c),
        Key::Esc => Some(Action::CloseAlert),
        Key::Left => Some(Action::Player(PlayerAction::Seek { dt: -5i64, mode: SeekMode::Relative })),
        Key::Right => Some(Action::Player(PlayerAction::Seek { dt: 5i64, mode: SeekMode::Relative })),
        _ => None,
    }
}

/// The action that a character key is bound to by default.
fn default_char_action(c: char) -> (r: Option<Action>)
    ensures
        r == default_char_binding(c),
{
    if c == 'q' {
        Some(Action::Quit)
    } else if c == 'j' {
        Some(Action::Menu(MenuCtrl::Next))
    } else if c == 'k' {
        Some(Action::Menu(MenuCtrl::Prev))
    } else if c == 'l' {
        Some(Action::Menu(MenuCtrl::NextMenu))
    } else if c == 'h' {
        Some(Action::Menu(MenuCtrl::PrevMenu))
    } else if c == ' ' {
        Some(Action::Player(PlayerAction::PlayPauseToggle))
    } else if c == 'a' {
        Some(Action::ToggleAuto)
    } else if c == '<' {
        Some(Action::Player(PlayerAction::Prev))
    } else if c == '>' {
        Some(Action::Player(PlayerAction::Next))
    } else if c == 'd' {
        Some(Action::Player(PlayerAction::SetVolume(Volume::Relative(-5isize))))
    } else if c == 'f' {
        Some(Action::Player(PlayerAction::SetVolume(Volume::Relative(5isize))))
    } else if c == 'g' {
        Some(Action::GoToCurrent)
    } else if c == 'r' {
        Some(Action::Player(PlayerAction::CycleRepeat))
    } else if c == 'y' {
        Some(Action::Player(PlayerAction::ShuffleToggle))
    } else if c == ':' {
        Some(Action::CommandPrompt)
    } else {
        match percent_of_key(c) {
            Some(percent) => Some(
                Action::Player(PlayerAction::Seek { dt: percent, mode: SeekMode::AbsolutePercent }),
            ),
            None => None,
        }
    }
}

/// The action that a key is bound to by default.
pub fn default_action(key: Key) -> (r: Option<Action>)
    ensures
        r == default_binding(key),
{
    match key {
        Key::Char(c) => default_char_action(c),
        Key::Esc => Some(Action::CloseAlert),
        Key::Left => Some(Action::Player(PlayerAction::Seek { dt: -5i64, mode: SeekMode::Relative })),
        Key::Right => Some(Action::Player(PlayerAction::Seek { dt: 5i64, mode: SeekMode::Relative })),
        _ => None,
    }
}

/// A colour of the terminal.
#[derive(Debug, Clone, Copy, PartialEq, Eq, Structural)]
pub enum Color {
    /// The colour that the terminal has of itself.
    Reset,
    Rgb(u8, u8, u8),
}

/// The colours of a piece of the screen. A colour that is not named is
/// left as it is.
#[derive(Debug, Clone, Copy, PartialEq, Eq, Structural)]
pub struct Style {
    pub fg: Option<Color>,
    pub bg: Option<Color>,
}

/// One key and what it does.
#[derive(Debug, PartialEq, Eq)]
pub struct Binding {
    pub key: Key,
    pub action: Action,
}

/// The binding at `i` is the first of `keymap` for the key `key`.
pub open spec fn is_first_bound(keymap: Seq<Binding>, key: Key, i: int) -> bool {
    &&& 0 <= i < keymap.len()
    &&& keymap[i].key == key
    &&& forall|j: int| 0 <= j < i ==> (#[trigger] keymap[j]).key != key
}

/// Some binding of `keymap` is for the key `key`.
pub open spec fn is_bound(keymap: Seq<Binding>, key: Key) -> bool {
    exists|i: int| 0 <= i < keymap.len() && (#[trigger] keymap[i]).key == key
}

/// The keys that are bound by default.
pub open spec fn default_keys() -> Seq<Key> {
    seq![
        Key::Char('q'),
        Key::Esc,
        Key::Char('j'),
        Key::Char('k'),
        Key::Char('l'),
        Key::Char('h'),
        Key::Char(' '),
        Key::Char('a'),
        Key::Left,
        Key::Right,
        Key::Char('<'),
        Key::Char('>'),
        Key::Char('d'),
        Key::Char('f'),
        Key::Char('g'),
        Key::Char('r'),
        Key::Char('y'),
        Key::Char('&'),
        Key::Char('é'),
        Key::Char('"'),
        Key::Char('\''),
        Key::Char('('),
        Key::Char('-'),
        Key::Char('è'),
        Key::Char('_'),
        Key::Char('ç'),
        Key::Char('à'),
        Key::Char(':'),
    ]
}

/// The keys that are bound by default are those that have a default
/// action, each listed once.
pub proof fn lemma_default_keys(key: Key)
    ensures
        default_keys().contains(key) <==> default_binding(key) is Some,
        default_keys().no_duplicates(),
{
    let keys = default_keys();
    if default_binding(key) is Some {
        let i: int = if key == Key::Char('q') {
            0
        } else if key == Key::Esc {
            1
        } else if key == Key::Char('j') {
            2
        } else if key == Key::Char('k') {
            3
        } else if key == Key::Char('l') {
            4
        } else if key == Key::Char('h') {
            5
        } else if key == Key::Char(' ') {
            6
        } else if key == Key::Char('a') {
            7
        } else if key == Key::Left {
            8
        } else if key == Key::Right {
            9
        } else if key == Key::Char('<') {
            10
        } else if key == Key::Char('>') {
            11
        } else if key == Key::Char('d') {
            12
        } else if key == Key::Char('f') {
            13
        } else if key == Key::Char('g') {
            14
        } else if key == Key::Char('r') {
            15
        } else if key == Key::Char('y') {
            16
        } else if key == Key::Char('&') {
            17
        } else if key == Key::Char('é') {
            18
        } else if key == Key::Char('"') {
            19
        } else if key == Key::Char('\'') {
            20
        } else if key == Key::Char('(') {
            21
        } else if key == Key::Char('-') {
            22
        } else if key == Key::Char('è') {
            23
        } else if key == Key::Char('_') {
            24
        } else if key == Key::Char('ç') {
            25
        } else if key == Key::Char('à') {
            26
        } else {
            27
        };
        assert(keys[i] == key);
    }
    if keys.contains(key) {
        let i = choose|i: int| 0 <= i < keys.len() && keys[i] == key;
        assert(default_binding(keys[i]) is Some);
    }
}

/// The keys that are bound by default.
fn keys_bound_by_default() -> (keys: Vec<Key>)
    ensures
        keys@ == default_keys(),
{
    let mut keys: Vec<Key> = Vec::new();
    keys.push(Key::Char('q'));
    keys.push(Key::Esc);
    keys.push(Key::Char('j'));
    keys.push(Key::Char('k'));
    keys.push(Key::Char('l'));
    keys.push(Key::Char('h'));
    keys.push(Key::Char(' '));
    keys.push(Key::Char('a'));
    keys.push(Key::Left);
    keys.push(Key::Right);
    keys.push(Key::Char('<'));
    keys.push(Key::Char('>'));
    keys.push(Key::Char('d'));
    keys.push(Key::Char('f'));
    keys.push(Key::Char('g'));
    keys.push(Key::Char('r'));
    keys.push(Key::Char('y'));
    keys.push(Key::Char('&'));
    keys.push(Key::Char('é'));
    keys.push(Key::Char('"'));
    keys.push(Key::Char('\''));
    keys.push(Key::Char('('));
    keys.push(Key::Char('-'));
    keys.push(Key::Char('è'));
    keys.push(Key::Char('_'));
    keys.push(Key::Char('ç'));
    keys.push(Key::Char('à'));
    keys.push(Key::Char(':'));
    assert(keys@ =~= default_keys());
    keys
}

/// `keymap` holds each of the default keys once, in their order, with the
/// action that is its default.
pub open spec fn is_default_keymap(keymap: Seq<Binding>) -> bool {
    &&& keymap.len() == default_keys().len()
    &&& forall|i: int|
        0 <= i < keymap.len() ==> (#[trigger] keymap[i]).key == default_keys()[i] && Some(
            keymap[i].action,
        ) == default_binding(default_keys()[i])
}

/// In the default key map a key is bound if and only if it has a default
/// action, and then to that action.
pub proof fn lemma_default_keymap(keymap: Seq<Binding>, key: Key)
    requires
        is_default_keymap(keymap),
    ensures
        is_bound(keymap, key) <==> default_binding(key) is Some,
        forall|i: int|
            is_first_bound(keymap, key, i) ==> Some(keymap[i].action) == default_binding(key),
{
    lemma_default_keys(key);
    let keys = default_keys();
    if default_binding(key) is Some {
        let i = choose|i: int| 0 <= i < keys.len() && keys[i] == key;
        assert(keymap[i].key == key);
    }
    if is_bound(keymap, key) {
        let i = choose|i: int| 0 <= i < keymap.len() && (#[trigger] keymap[i]).key == key;
        assert(keys[i] == key);
    }
}

/// What the user has set: the keys, where the secrets and the music are,
/// and the colours.
#[derive(Debug)]
pub struct Config {
    /// The keys and what they do; the first binding of a key counts.
    pub keymap: Vec<Binding>,
    pub yt_secret_location: String,
    pub spotify_secret_location: String,
    /// The folders of the local library.
    pub folders: Vec<String>,
    pub focused_fg: Color,
    pub focused_bg: Color,
    pub focused_highlight_fg: Color,
    pub focused_highlight_bg: Color,
    pub unfocused_fg: Color,
    pub unfocused_bg: Color,
    pub unfocused_highlight_fg: Color,
    pub unfocused_highlight_bg: Color,
    pub border_focus: Color,
    pub border_unfocus: Color,
}

impl Config {
    /// The action that `key` is bound to.
    pub fn get_action(&self, key: Key) -> (r: Option<Action>)
        ensures
            r is Some == is_bound(self.keymap@, key),
            forall|i: int|
                is_first_bound(self.keymap@, key, i) ==> r is Some && action_view(r->0)
                    == action_view(self.keymap@[i].action),
    {
        let mut i: usize = 0;
        while i < self.keymap.len()
            invariant
                i <= self.keymap@.len(),
                forall|j: int| 0 <= j < i ==> (#[trigger] self.keymap@[j]).key != key,
            decreases self.keymap@.len() - i,
        {
            if self.keymap[i].key == key {
                assert forall|k: int| is_first_bound(self.keymap@, key, k) implies k == i by {
                    if k < i {
                        assert(self.keymap@[k].key != key);
                    }
                    if i < k {
                        assert(self.keymap@[i as int].key == key);
                    }
                }
                return Some(clone_action(&self.keymap[i].action));
            }
            i += 1;
        }
        None
    }

    /// The keys as they are bound by default: each of the default keys
    /// once, in their order, with the action that is its default.
    pub fn default_keymap() -> (keymap: Vec<Binding>)
        ensures
            is_default_keymap(keymap@),
    {
        let keys = keys_bound_by_default();
        let mut keymap: Vec<Binding> = Vec::new();
        let mut i: usize = 0;
        while i < keys.len()
            invariant
                i <= keys@.len(),
                keys@ == default_keys(),
                keymap@.len() == i,
                forall|k: int|
                    0 <= k < i ==> (#[trigger] keymap@[k]).key == default_keys()[k] && Some(
                        keymap@[k].action,
                    ) == default_binding(default_keys()[k]),
            decreases keys@.len() - i,
        {
            match default_action(keys[i]) {
                Some(action) => {
                    keymap.push(Binding { key: keys[i], action });
                },
                None => {
                    assert(default_binding(default_keys()[i as int]) is Some);
                },
            }
            i += 1;
        }
        keymap
    }

    /// The settings that hold unless the user says otherwise, with the
    /// places of the secrets and of the music as given.
    pub fn with_defaults(
        yt_secret_location: String,
        spotify_secret_location: String,
        folders: Vec<String>,
    ) -> (r: Config)
        ensures
            r.yt_secret_location == yt_secret_location,
            r.spotify_secret_location == spotify_secret_location,
            r.folders == folders,
            is_default_keymap(r.keymap@),
            r.focused_fg == Color::Rgb(202, 211, 245),
            r.focused_bg == Color::Reset,
            r.focused_highlight_fg == Color::Rgb(202, 211, 245),
            r.focused_highlight_bg == Color::Rgb(91, 96, 120),
            r.unfocused_fg == Color::Rgb(110, 115, 141),
            r.unfocused_bg == Color::Reset,
            r.unfocused_highlight_fg == Color::Reset,
            r.unfocused_highlight_bg == Color::Rgb(110, 115, 141),
            r.border_focus == Color::Rgb(183, 189, 248),
            r.border_unfocus == Color::Rgb(110, 115, 141),
    {
        Config {
            keymap: Config::default_keymap(),
            yt_secret_location,
            spotify_secret_location,
            folders,
            focused_fg: Color::Rgb(202, 211, 245),
            focused_bg: Color::Reset,
            focused_highlight_fg: Color::Rgb(202, 211, 245),
            focused_highlight_bg: Color::Rgb(91, 96, 120),
            unfocused_fg: Color::Rgb(110, 115, 141),
            unfocused_bg: Color::Reset,
            unfocused_highlight_fg: Color::Reset,
            unfocused_highlight_bg: Color::Rgb(110, 115, 141),
            border_focus: Color::Rgb(183, 189, 248),
            border_unfocus: Color::Rgb(110, 115, 141),
        }
    }

    /// The colours of a border.
    pub fn get_border_style(&self, focused: bool) -> (r: Style)
        ensures
            r == (Style {
                fg: Some(
                    if focused {
                        self.border_focus
                    } else {
                        self.border_unfocus
                    },
                ),
                bg: None,
            }),
    {
        Style {
            fg: Some(if focused { self.border_focus } else { self.border_unfocus }),
            bg: None,
        }
    }

    /// The colours of a list.
    pub fn get_style(&self, focused: bool) -> (r: Style)
        ensures
            r == if focused {
                Style { fg: Some(self.focused_fg), bg: Some(self.focused_bg) }
            } else {
                Style { fg: Some(self.unfocused_fg), bg: Some(self.unfocused_bg) }
            },
    {
        if focused {
            Style { fg: Some(self.focused_fg), bg: Some(self.focused_bg) }
        } else {
            Style { fg: Some(self.unfocused_fg), bg: Some(self.unfocused_bg) }
        }
    }

    /// The colours of the selected entry of a list.
    pub fn get_highlight_style(&self, focused: bool) -> (r: Style)
        ensures
            r == if focused {
                Style { fg: Some(self.focused_highlight_fg), bg: Some(self.focused_highlight_bg) }
            } else {
                Style {
                    fg: Some(self.unfocused_highlight_fg),
                    bg: Some(self.unfocused_highlight_bg),
                }
            },
    {
        if focused {
            Style { fg: Some(self.focused_highlight_fg), bg: Some(self.focused_highlight_bg) }
        } else {
            Style { fg: Some(self.unfocused_highlight_fg), bg: Some(self.unfocused_highlight_bg) }
        }
    }
}

/// What an [`Action`] stands for in contracts.
pub enum ActionView {
    Render,
    PauseRender(bool),
    Player(crate::protocol::PlayerActionView),
    Menu(MenuCtrl),
    Alert(Seq<char>),
    ToggleAuto,
    CloseAlert,
    CommandPrompt,
    Quit,
    Update,
    GoToCurrent,
}

/// What an action stands for in contracts.
pub open spec fn action_view(action: Action) -> ActionView {
    match action {
        Action::Render => ActionView::Render,
        Action::PauseRender(val) => ActionView::PauseRender(val),
        Action::Player(intent) => ActionView::Player(intent@),
        Action::Menu(step) => ActionView::Menu(step),
        Action::Alert(text) => ActionView::Alert(text@),
        Action::ToggleAuto => ActionView::ToggleAuto,
        Action::CloseAlert => ActionView::CloseAlert,
        Action::CommandPrompt => ActionView::CommandPrompt,
        Action::Quit => ActionView::Quit,
        Action::Update => ActionView::Update,
        Action::GoToCurrent => ActionView::GoToCurrent,
    }
}

/// Copies an action.
pub fn clone_action(action: &Action) -> (r: Action)
    ensures
        action_view(r) == action_view(*action),
{
    match action {
        Action::Render => Action::Render,
        Action::PauseRender(val) => Action::PauseRender(*val),
        Action::Player(intent) => Action::Player(intent.clone()),
        Action::Menu(step) => Action::Menu(*step),
        Action::Alert(text) => Action::Alert(text.clone()),
        Action::ToggleAuto => Action::ToggleAuto,
        Action::CloseAlert => Action::CloseAlert,
        Action::CommandPrompt => Action::CommandPrompt,
        Action::Quit => Action::Quit,
        Action::Update => Action::Update,
        Action::GoToCurrent => Action::GoToCurrent,
    }
}

} // verus!
