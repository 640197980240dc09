//! The panel front end: three panels side by side, for the sources, the
//! playlists and the songs, and the keys that move between and within them.
use crate::menu::{clamp, clamped};
use vstd::prelude::*;

verus! {

/// One of the three panels.
#[derive(Debug, Hash, PartialEq, Eq, Clone, Copy, Structural)]
pub enum Panel {
    Sources,
    Playlists,
    Songs,
}

/// A direction on the keyboard.
#[derive(Debug, Clone, Copy, PartialEq, Eq, Structural)]
pub enum MoveDirection {
    Down,
    Up,
    Left,
    Right,
}

/// A move of the cursor.
#[derive(Debug, Clone, Copy, PartialEq, Eq, Structural)]
pub enum Move {
    /// Within a panel.
    Little(MoveDirection),
    /// From panel to panel.
    Big(MoveDirection),
    Enter,
}

/// Something asked of the player.
#[derive(Debug, Clone, Copy, PartialEq, Eq, Structural)]
pub enum PlayerCtrl {
    Pause,
    Play,
    Shuffle,
    Repeat,
    Auto,
    SeekForwardRel,
    SeekBackwardRel,
    SeekPercent(u32),
    VolumeUp,
    VolumeDown,
    Prev,
    Next,
}

/// What a key asks for.
#[derive(Debug, Clone, Copy, PartialEq, Eq, Structural)]
pub enum KeyCommand {
    Quit,
    Movement(Move),
    Player(PlayerCtrl),
}

/// A dialog can show a message and take an answer.
pub trait DialogueBox {
    /// Shows the message of the dialog.
    fn display_message(&self);

    /// Takes the answer of the user.
    fn get_response(&self);
}

/// What a character key asks for.
pub open spec fn char_command(c: char) -> Option<KeyCommand> {
    if c == 'q' {
        Some(KeyCommand::Quit)
    } else if c == 'j' {
        Some(KeyCommand::Movement(Move::Little(MoveDirection::Down)))
    } else if c == 'k' {
        Some(KeyCommand::Movement(Move::Little(MoveDirection::Up)))
    } else if c == 'h' {
        Some(KeyCommand::Movement(Move::Little(MoveDirection::Left)))
    } else if c == 'l' {
        Some(KeyCommand::Movement(Move::Little(MoveDirection::Right)))
    } else if c == 'J' {
        Some(KeyCommand::Movement(Move::Big(MoveDirection::Down)))
    } else if c == 'K' {
        Some(KeyCommand::Movement(Move::Big(MoveDirection::Up)))
    } else if c == 'H' {
        Some(KeyCommand::Movement(Move::Big(MoveDirection::Left)))
    } else if c == 'L' {
        Some(KeyCommand::Movement(Move::Big(MoveDirection::Right)))
    } else if c == ' ' {
        Some(KeyCommand::Player(PlayerCtrl::Pause))
    } else if c == 'a' {
        Some(KeyCommand::Player(PlayerCtrl::Auto))
    } else if c == 'r' {
        Some(KeyCommand::Player(PlayerCtrl::Repeat))
    } else if c == 'y' {
        Some(KeyCommand::Player(PlayerCtrl::Shuffle))
    } else if c == 'd' {
        Some(KeyCommand::Player(PlayerCtrl::VolumeDown))
    } else if c == 'f' {
        Some(KeyCommand::Player(PlayerCtrl::VolumeUp))
    } else if c == '>' {
        Some(KeyCommand::Player(PlayerCtrl::Next))
    } else if c == '<' {
        Some(KeyCommand::Player(PlayerCtrl::Prev))
    } else {
        match crate::config::percent_key(c) {
            Some(percent) => Some(KeyCommand::Player(PlayerCtrl::SeekPercent(percent as u32))),
            None => None,
        }
    }
}

/// What a key asks for.
pub open spec fn key_command(key: crate::tui::Key) -> Option<KeyCommand> {
    match key {
        crate::tui::Key::Char(c) => char_command(c),
        crate::tui::Key::Enter => Some(KeyCommand::Movement(Move::Enter)),
        crate::tui::Key::Right => Some(KeyCommand::Player(PlayerCtrl::SeekForwardRel)),
        crate::tui::Key::Left => Some(KeyCommand::Player(PlayerCtrl::SeekBackwardRel)),
        _ => None,
    }
}

/// What a character key asks for.
fn handle_char(c: char) -> (r: Option<KeyCommand>)
    ensures
        r == char_command(c),
{
    if c == 'q' {
        Some(KeyCommand::Quit)
    } else if c == 'j' {
        Some(KeyCommand::Movement(Move::Little(MoveDirection::Down)))
    } else if c == 'k' {
        Some(KeyCommand::Movement(Move::Little(MoveDirection::Up)))
    } else if c == 'h' {
        Some(KeyCommand::Movement(Move::Little(MoveDirection::Left)))
    } else if c == 'l' {
        Some(KeyCommand::Movement(Move::Little(MoveDirection::Right)))
    } else if c == 'J' {
        Some(KeyCommand::Movement(Move::Big(MoveDirection::Down)))
    } else if c == 'K' {
        Some(KeyCommand::Movement(Move::Big(MoveDirection::Up)))
    } else if c == 'H' {
        Some(KeyCommand::Movement(Move::Big(MoveDirection::Left)))
    } else if c == 'L' {
        Some(KeyCommand::Movement(Move::Big(MoveDirection::Right)))
    } else if c == ' ' {
        Some(KeyCommand::Player(PlayerCtrl::Pause))
    } else if c == 'a' {
        Some(KeyCommand::Player(PlayerCtrl::Auto))
    } else if c == 'r' {
        Some(KeyCommand::Player(PlayerCtrl::Repeat))
    } else if c == 'y' {
        Some(KeyCommand::Player(PlayerCtrl::Shuffle))
    } else if c == 'd' {
        Some(KeyCommand::Player(PlayerCtrl::VolumeDown))
    } else if c == 'f' {
        Some(KeyCommand::Player(PlayerCtrl::VolumeUp))
    } else if c == '>' {
        Some(KeyCommand::Player(PlayerCtrl::Next))
    } else if c == '<' {
        Some(KeyCommand::Player(PlayerCtrl::Prev))
    } else {
        match crate::config::percent_of_key(c) {
            Some(percent) => Some(KeyCommand::Player(PlayerCtrl::SeekPercent(percent as u32))),
            None => None,
        }
    }
}

/// What a key asks for.
pub fn handle(key: crate::tui::Key) -> (r: Option<KeyCommand>)
    ensures
        r == key_command(key),
{
    match key {
        crate::tui::Key::Char(c) => handle_char(c),
        crate::tui::Key::Enter => Some(KeyCommand::Movement(Move::Enter)),
        crate::tui::Key::Right => Some(KeyCommand::Player(PlayerCtrl::SeekForwardRel)),
        crate::tui::Key::Left => Some(KeyCommand::Player(PlayerCtrl::SeekBackwardRel)),
        _ => None,
    }
}

/// What is selected in each panel.
#[derive(Debug, Clone, Copy, PartialEq, Eq, Structural)]
pub struct State {
    pub client: Option<usize>,
    pub playlist: Option<usize>,
    pub song: Option<usize>,
}

impl State {
    /// Nothing is selected.
    pub open spec fn empty() -> State {
        State { client: None, playlist: None, song: None }
    }

    /// What is selected in `panel`.
    pub open spec fn selected(&self, panel: Panel) -> Option<usize> {
        match panel {
            Panel::Sources => self.client,
            Panel::Playlists => self.playlist,
            Panel::Songs => self.song,
        }
    }

    /// `self` with `select` selected in `panel`.
    pub open spec fn with(&self, panel: Panel, select: Option<usize>) -> State {
        match panel {
            Panel::Sources => State { client: select, ..*self },
            Panel::Playlists => State { playlist: select, ..*self },
            Panel::Songs => State { song: select, ..*self },
        }
    }

    /// Nothing is selected.
    pub fn new() -> (r: State)
        ensures
            r == State::empty(),
    {
        State { client: None, playlist: None, song: None }
    }

    /// What is selected in `panel`.
    pub fn get(&self, panel: Panel) -> (r: Option<usize>)
        ensures
            r == self.selected(panel),
    {
        match panel {
            Panel::Sources => self.client,
            Panel::Playlists => self.playlist,
            Panel::Songs => self.song,
        }
    }

    /// Selects `select` in `panel`.
    pub fn set(&mut self, panel: Panel, select: Option<usize>)
        ensures
            *final(self) == old(self).with(panel, select),
    {
        match panel {
            Panel::Sources => {
                self.client = select;
            },
            Panel::Playlists => {
                self.playlist = select;
            },
            Panel::Songs => {
                self.song = select;
            },
        }
    }
}

/// How many entries each panel holds.
#[derive(Debug, Clone, Copy, PartialEq, Eq, Structural)]
pub struct Sizes {
    pub clients: usize,
    pub playlists: usize,
    pub songs: usize,
}

impl Sizes {
    /// How many entries `panel` holds.
    pub open spec fn of(&self, panel: Panel) -> usize {
        match panel {
            Panel::Sources => self.clients,
            Panel::Playlists => self.playlists,
            Panel::Songs => self.songs,
        }
    }

    /// How many entries `panel` holds.
    pub fn get_max(&self, panel: Panel) -> (r: usize)
        ensures
            r == self.of(panel),
    {
        match panel {
            Panel::Sources => self.clients,
            Panel::Playlists => self.playlists,
            Panel::Songs => self.songs,
        }
    }
}

/// The panel reached from `panel` by a move from panel to panel.
pub open spec fn panel_after(panel: Panel, dir: MoveDirection) -> Panel {
    match dir {
        MoveDirection::Down => if panel == Panel::Sources {
            Panel::Playlists
        } else {
            panel
        },
        MoveDirection::Up => if panel == Panel::Playlists {
            Panel::Sources
        } else {
            panel
        },
        MoveDirection::Left => Panel::Playlists,
        MoveDirection::Right => Panel::Songs,
    }
}

/// The panel that has the focus after a move.
pub open spec fn panel_moved(panel: Panel, dir: Move) -> Panel {
    match dir {
        Move::Little(_) => panel,
        Move::Big(d) => panel_after(panel, d),
        Move::Enter => match panel {
            Panel::Sources => Panel::Playlists,
            Panel::Playlists => Panel::Songs,
            Panel::Songs => Panel::Songs,
        },
    }
}

/// The steps that a move makes within the panel.
pub open spec fn steps(dir: Move) -> int {
    match dir {
        Move::Little(MoveDirection::Up) => -1,
        Move::Little(MoveDirection::Down) => 1,
        _ => 0,
    }
}

/// The selections after a move: the selection of the panel in focus moves
/// by the steps of the move, and then the selection of the panel that has
/// the focus after the move is brought within what that panel holds.
pub open spec fn state_moved(state: State, panel: Panel, dir: Move, sizes: Sizes) -> State {
    let first = state.with(
        panel,
        if steps(dir) != 0 {
            clamped(state.selected(panel), steps(dir), sizes.of(panel) as nat)
        } else {
            state.selected(panel)
        },
    );
    let focus = panel_moved(panel, dir);
    first.with(focus, clamped(first.selected(focus), 0, sizes.of(focus) as nat))
}

/// The panel front end, without its screen.
#[derive(Debug)]
pub struct Ui {
    pub current_panel: Panel,
    pub state: State,
    pub quit: bool,
}

impl Ui {
    /// A front end with the focus on the sources, and the first source
    /// selected.
    pub fn new() -> (r: Ui)
        ensures
            r.current_panel == Panel::Sources,
            r.state == (State { client: Some(0usize), ..State::empty() }),
            !r.quit,
    {
        Ui {
            current_panel: Panel::Sources,
            state: State { client: Some(0), playlist: None, song: None },
            quit: false,
        }
    }

    /// Moves the selection of the panel in focus by `off` entries, within
    /// what the panel holds.
    pub fn update_panel_state(&mut self, off: i64, sizes: &Sizes)
        ensures
            final(self).current_panel == old(self).current_panel,
            final(self).quit == old(self).quit,
            final(self).state == old(self).state.with(
                old(self).current_panel,
                clamped(
                    old(self).state.selected(old(self).current_panel),
                    off as int,
                    sizes.of(old(self).current_panel) as nat,
                ),
            ),
    {
        let max: usize = sizes.get_max(self.current_panel);
        let select = clamp(self.state.get(self.current_panel), off, max);
        self.state.set(self.current_panel, select);
    }

    /// Moves the focus from panel to panel.
    pub fn change_panel(&mut self, dir: MoveDirection)
        ensures
            final(self).current_panel == panel_after(old(self).current_panel, dir),
            final(self).state == old(self).state,
            final(self).quit == old(self).quit,
    {
        match dir {
            MoveDirection::Down => {
                if self.current_panel == Panel::Sources {
                    self.current_panel = Panel::Playlists;
                }
            },
            MoveDirection::Up => {
                if self.current_panel == Panel::Playlists {
                    self.current_panel = Panel::Sources;
                }
            },
            MoveDirection::Left => {
                self.current_panel = Panel::Playlists;
            },
            MoveDirection::Right => {
                self.current_panel = Panel::Songs;
            },
        }
    }

    /// Enters what is selected: a source opens its playlists, a playlist
    /// opens its songs, and a song is played.
    pub fn handle_enter(&mut self) -> (r: Option<PlayerCtrl>)
        ensures
            final(self).current_panel == panel_moved(old(self).current_panel, Move::Enter),
            final(self).state == old(self).state,
            final(self).quit == old(self).quit,
            r == if old(self).current_panel == Panel::Songs {
                Some(PlayerCtrl::Play)
            } else {
                None
            },
    {
        match self.current_panel {
            Panel::Sources => {
                self.current_panel = Panel::Playlists;
                None
            },
            Panel::Playlists => {
                self.current_panel = Panel::Songs;
                None
            },
            Panel::Songs => Some(PlayerCtrl::Play),
        }
    }

    /// Carries out a move, then brings the selection of the panel in
    /// focus within what the panel holds. Entering a song asks for it to be
    /// played.
    pub fn movement(&mut self, dir: Move, sizes: &Sizes) -> (r: Option<PlayerCtrl>)
        ensures
            final(self).quit == old(self).quit,
            final(self).current_panel == panel_moved(old(self).current_panel, dir),
            r == if dir is Enter && old(self).current_panel == Panel::Songs {
                Some(PlayerCtrl::Play)
            } else {
                None
            },
            final(self).state == state_moved(old(self).state, old(self).current_panel, dir, *sizes),
    {
        let asked = match dir {
            Move::Little(d) => {
                match d {
                    MoveDirection::Up => self.update_panel_state(-1, sizes),
                    MoveDirection::Down => self.update_panel_state(1, sizes),
                    _ => {},
                }
                None
            },
            Move::Big(d) => {
                self.change_panel(d);
                None
            },
            Move::Enter => self.handle_enter(),
        };
        self.update_panel_state(0, sizes);
        asked
    }

    /// What a key does: it ends the run, moves the cursor, or asks
    /// something of the player.
    pub fn handle_key(&mut self, key: crate::tui::Key, sizes: &Sizes) -> (r: Option<PlayerCtrl>)
        ensures
            match key_command(key) {
                Some(KeyCommand::Quit) => final(self).quit && final(self).state == old(self).state
                    && final(self).current_panel == old(self).current_panel && r is None,
                Some(KeyCommand::Movement(dir)) => {
                    &&& final(self).quit == old(self).quit
                    &&& final(self).current_panel == panel_moved(old(self).current_panel, dir)
                    &&& final(self).state == state_moved(
                        old(self).state,
                        old(self).current_panel,
                        dir,
                        *sizes,
                    )
                    &&& r == if dir is Enter && old(self).current_panel == Panel::Songs {
                        Some(PlayerCtrl::Play)
                    } else {
                        None
                    }
                },
                Some(KeyCommand::Player(ctrl)) => *final(self) == *old(self) && r == Some(ctrl),
                None => *final(self) == *old(self) && r is None,
            },
    {
        match handle(key) {
            Some(KeyCommand::Quit) => {
                self.quit = true;
                None
            },
            Some(KeyCommand::Movement(dir)) => self.movement(dir, sizes),
            Some(KeyCommand::Player(ctrl)) => Some(ctrl),
            None => None,
        }
    }
}

} // verus!
