//! The first front end: one cursor over the sources, their playlists and
//! their songs, moved one step at a time.
use crate::events::Action;
use crate::menu::{clamp, clamped, Menu, MenuCtrl};
use crate::protocol::PlayerAction;
use crate::tui::Key;
use vstd::prelude::*;

verus! {

/// Where the cursor is.
#[derive(Debug, Clone, Copy, PartialEq, Eq, Structural)]
pub struct Position {
    pub client: usize,
    pub playlist: Option<usize>,
    pub song: Option<usize>,
}

/// How many entries each level holds for the cursor as it is.
#[derive(Debug, Clone, Copy, PartialEq, Eq, Structural)]
pub struct Sizes {
    pub clients: usize,
    /// The playlists of the selected source.
    pub playlists: usize,
    /// The songs that the selected source shows.
    pub songs: usize,
}

/// The steps that a move of the cursor makes within the level in focus.
pub open spec fn steps(action: MenuCtrl) -> int {
    match action {
        MenuCtrl::Next => 1,
        MenuCtrl::Prev => -1,
        _ => 0,
    }
}

/// The level in focus after a move of the cursor.
pub open spec fn menu_after(menu: Menu, action: MenuCtrl) -> Menu {
    match action {
        MenuCtrl::NextMenu => menu.entered(),
        MenuCtrl::PrevMenu => menu.left(),
        _ => menu,
    }
}

/// The cursor after a move. Leaving a level drops its selection; then the
/// selection of the level in focus moves, within what the level holds.
pub open spec fn position_after(
    position: Position,
    menu: Menu,
    action: MenuCtrl,
    sizes: Sizes,
) -> Position {
    let left = match (action, menu) {
        (MenuCtrl::PrevMenu, Menu::Playlist) => Position { playlist: None, ..position },
        (MenuCtrl::PrevMenu, Menu::Song) => Position { song: None, ..position },
        _ => position,
    };
    match menu_after(menu, action) {
        Menu::Client => Position {
            client: clamped(Some(left.client), steps(action), sizes.clients as nat)->0,
            ..left
        },
        Menu::Playlist => Position {
            playlist: clamped(left.playlist, steps(action), sizes.playlists as nat),
            ..left
        },
        Menu::Song => Position {
            song: clamped(left.song, steps(action), sizes.songs as nat),
            ..left
        },
    }
}

/// The state of the front end.
#[derive(Debug)]
pub struct App {
    pub current_menu: Menu,
    pub active_player: Option<usize>,
    pub should_quit: bool,
    pub position: Position,
}

impl App {
    /// A front end with the focus on the sources and the cursor on the
    /// first of them.
    pub fn new() -> (r: App)
        ensures
            r.current_menu == Menu::Client,
            r.active_player is None,
            !r.should_quit,
            r.position == (Position { client: 0, playlist: None, song: None }),
    {
        App {
            current_menu: Menu::Client,
            active_player: None,
            should_quit: false,
            position: Position { client: 0, playlist: None, song: None },
        }
    }

    /// Moves the cursor, and asks for the screen to be drawn anew. There is
    /// at least one source to move among.
    pub fn handle_menu_event(&mut self, action: MenuCtrl, sizes: &Sizes) -> (r: Option<Action>)
        requires
            sizes.clients > 0,
        ensures
            r == Some(Action::Render),
            final(self).active_player == old(self).active_player,
            final(self).should_quit == old(self).should_quit,
            final(self).current_menu == menu_after(old(self).current_menu, action),
            final(self).position == position_after(
                old(self).position,
                old(self).current_menu,
                action,
                *sizes,
            ),
    {
        let mut offset: i64 = 0;
        match action {
            MenuCtrl::Next => {
                offset = 1;
            },
            MenuCtrl::Prev => {
                offset = -1;
            },
            MenuCtrl::NextMenu => match self.current_menu {
                Menu::Client => {
                    self.current_menu = Menu::Playlist;
                },
                Menu::Playlist => {
                    self.current_menu = Menu::Song;
                },
                Menu::Song => {},
            },
            MenuCtrl::PrevMenu => match self.current_menu {
                Menu::Client => {},
                Menu::Playlist => {
                    self.current_menu = Menu::Client;
                    self.position.playlist = None;
                },
                Menu::Song => {
                    self.current_menu = Menu::Playlist;
                    self.position.song = None;
                },
            },
            MenuCtrl::Offset(_) => {},
        }
        match self.current_menu {
            Menu::Client => {
                match clamp(Some(self.position.client), offset, sizes.clients) {
                    Some(client) => {
                        self.position.client = client;
                    },
                    None => {},
                }
            },
            Menu::Playlist => {
                self.position.playlist = clamp(self.position.playlist, offset, sizes.playlists);
            },
            Menu::Song => {
                self.position.song = clamp(self.position.song, offset, sizes.songs);
            },
        }
        Some(Action::Render)
    }

    /// The backend that a playback intent goes to: the active one, if one
    /// is active and is among the `clients` backends that there are.
    pub fn handle_player_action(&self, clients: usize) -> (r: Option<usize>)
        ensures
            r == match self.active_player {
                Some(p) => if p < clients {
                    Some(p)
                } else {
                    None
                },
                None => None,
            },
    {
        match self.active_player {
            Some(p) => {
                if p < clients {
                    Some(p)
                } else {
                    None
                }
            },
            None => None,
        }
    }

    /// The backend under the cursor, if there is any backend.
    pub fn get_current_client(&self, clients: usize) -> (r: Option<usize>)
        ensures
            r == if clients == 0 || self.position.client >= clients {
                None
            } else {
                Some(self.position.client)
            },
    {
        if clients == 0 || self.position.client >= clients {
            None
        } else {
            Some(self.position.client)
        }
    }

    /// The action that an event of the terminal asks for. `bound` is the
    /// action that the configuration binds to the key of the event, if the
    /// event is a key and is bound.
    pub fn handle_event(&self, event: Event, bound: Option<Action>) -> (r: Option<Action>)
        ensures
            r == match event {
                Event::Key(Key::Char(_)) => bound,
                Event::Key(_) => None,
                Event::Render => Some(Action::Render),
                Event::Update => Some(Action::Update),
            },
    {
        match event {
            Event::Key(Key::Char(_)) => bound,
            Event::Key(_) => None,
            Event::Render => Some(Action::Render),
            Event::Update => Some(Action::Update),
        }
    }

    /// Carries out an action: what the caller is to do, and the action that
    /// follows, if one does. Moving the cursor is followed by drawing the
    /// screen; ending the run is remembered.
    pub fn update(&mut self, action: Action, sizes: &Sizes) -> (r: (Work, Option<Action>))
        ensures
            final(self).active_player == old(self).active_player,
            match action {
                Action::Render => {
                    &&& *final(self) == *old(self)
                    &&& r.0 is Draw
                    &&& r.1 is None
                },
                Action::Quit => {
                    &&& final(self).should_quit
                    &&& final(self).current_menu == old(self).current_menu
                    &&& final(self).position == old(self).position
                    &&& r.0 is Quit
                    &&& r.1 is None
                },
                Action::Player(intent) => {
                    &&& *final(self) == *old(self)
                    &&& r.1 is None
                    &&& match old(self).active_player {
                        Some(p) => if p < sizes.clients {
                            r.0 == Work::SendToPlayer(p, intent)
                        } else {
                            r.0 is Nothing
                        },
                        None => r.0 is Nothing,
                    }
                },
                Action::Menu(step) => if sizes.clients > 0 {
                    &&& final(self).should_quit == old(self).should_quit
                    &&& final(self).current_menu == menu_after(old(self).current_menu, step)
                    &&& final(self).position == position_after(
                        old(self).position,
                        old(self).current_menu,
                        step,
                        *sizes,
                    )
                    &&& r.0 is Nothing
                    &&& r.1 == Some(Action::Render)
                } else {
                    &&& *final(self) == *old(self)
                    &&& r.0 is Nothing
                    &&& r.1 is None
                },
                Action::Update => {
                    &&& *final(self) == *old(self)
                    &&& r.1 is None
                    &&& r.0 == if sizes.clients == 0 || old(self).position.client >= sizes.clients {
                        Work::Nothing
                    } else {
                        Work::Refresh {
                            client: old(self).position.client,
                            playlist: old(self).position.playlist,
                        }
                    }
                },
                _ => {
                    &&& *final(self) == *old(self)
                    &&& r.0 is Nothing
                    &&& r.1 is None
                },
            },
    {
        match action {
            Action::Render => (Work::Draw, None),
            Action::Quit => {
                self.should_quit = true;
                (Work::Quit, None)
            },
            Action::Player(intent) => match self.handle_player_action(sizes.clients) {
                Some(player) => (Work::SendToPlayer(player, intent), None),
                None => (Work::Nothing, None),
            },
            Action::Menu(step) => {
                if sizes.clients > 0 {
                    let next = self.handle_menu_event(step, sizes);
                    (Work::Nothing, next)
                } else {
                    (Work::Nothing, None)
                }
            },
            Action::Update => match self.get_current_client(sizes.clients) {
                Some(client) => (Work::Refresh { client, playlist: self.position.playlist }, None),
                None => (Work::Nothing, None),
            },
            _ => (Work::Nothing, None),
        }
    }
}

/// What the terminal reports to the front end.
#[derive(Debug, Clone, Copy, PartialEq, Eq, Structural)]
pub enum Event {
    Key(Key),
    Render,
    Update,
}

/// What the caller has to do for the front end.
#[derive(Debug, PartialEq, Eq)]
pub enum Work {
    Nothing,
    /// Draw the screen.
    Draw,
    /// Tell every backend to end, and leave the screen.
    Quit,
    /// Send this intent to the backend at this index.
    SendToPlayer(usize, PlayerAction),
    /// Ask the backend at `client` for its playlists, and for its playlist
    /// at `playlist`.
    Refresh { client: usize, playlist: Option<usize> },
}

} // verus!
