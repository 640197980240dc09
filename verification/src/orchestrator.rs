//! The orchestrator: the one place where the actions of the user, the answers
//! of the backends and the ticks of the clock meet. It keeps the state that
//! is shown, decides which backend plays, and says what is to be sent where.
//!
//! The orchestrator decides; the caller carries out. Each entry point takes
//! one event and adds to a list of [`Effect`]s what the caller is to do.
use crate::catalog::{find_playlist, has_id, is_first_with_id, upserted};
use crate::events::{Action, MyEvents};
use crate::menu::{offset_select, selection_in_range, ListHolder, Menu, MenuCtrl};
use crate::protocol::{
    clone_playlists, clone_songs, playlists_view, songs_view, Answer, GetRequestView, PlayerAction, PlayerActionView, PlayerInfo,
    PlayerInfoView, PlaylistInfo, PlaylistInfoView, Request, RequestView, SongInfo, SongInfoView,
    Widget,
};
use crate::proxy::{Client, ClientView};
use crate::text::{clone_texts, texts_view};
use vstd::prelude::*;

verus! {

/// What a [`State`] stands for in contracts.
pub struct StateView {
    pub clients: Seq<Seq<char>>,
    pub client_select: Option<usize>,
    pub playlists: Seq<PlaylistInfoView>,
    pub playlist_select: Option<usize>,
    pub songs: Seq<SongInfoView>,
    pub song_select: Option<usize>,
    pub alerts: Seq<Seq<char>>,
    pub player: PlayerInfoView,
    pub active_player: Option<usize>,
    pub active_menu: Menu,
}

/// All that the front end shows.
#[derive(Debug)]
pub struct State {
    pub clients: ListHolder<String>,
    pub playlists: ListHolder<PlaylistInfo>,
    pub songs: ListHolder<SongInfo>,
    /// The alerts to show, the latest last.
    pub alerts: Vec<String>,
    /// The state of the active player.
    pub player: PlayerInfo,
    /// The index of the backend that plays, if any does.
    pub active_player: Option<usize>,
    /// The level of the menu that has the focus.
    pub active_menu: Menu,
}

impl View for State {
    type V = StateView;

    open spec fn view(&self) -> StateView {
        StateView {
            clients: texts_view(self.clients.entries@),
            client_select: self.clients.select,
            playlists: playlists_view(self.playlists.entries@),
            playlist_select: self.playlists.select,
            songs: songs_view(self.songs.entries@),
            song_select: self.songs.select,
            alerts: texts_view(self.alerts@),
            player: self.player@,
            active_player: self.active_player,
            active_menu: self.active_menu,
        }
    }
}

/// What an [`Effect`] stands for in contracts.
pub enum EffectView {
    Send { client: usize, request: RequestView },
    Render,
    Control,
    ShowWidget(Widget),
    CommandPrompt,
    Shutdown,
}

/// One thing for the caller to carry out.
#[derive(Debug)]
pub enum Effect {
    /// Send `request` to the backend at `client`, waiting a bounded time. If
    /// the backend has gone, report it with [`Orchestrator::client_closed`].
    Send { client: usize, request: Request },
    /// Hand the state to the render surface.
    Render,
    /// Hand the state of the player to the control surface.
    Control,
    /// Have the render surface show this dialog.
    ShowWidget(Widget),
    /// Have the render surface prompt for a command.
    CommandPrompt,
    /// Cancel every task, close the inbound channel and drain it.
    Shutdown,
}

impl View for Effect {
    type V = EffectView;

    open spec fn view(&self) -> EffectView {
        match self {
            Effect::Send { client, request } => EffectView::Send {
                client: *client,
                request: request@,
            },
            Effect::Render => EffectView::Render,
            Effect::Control => EffectView::Control,
            Effect::ShowWidget(widget) => EffectView::ShowWidget(*widget),
            Effect::CommandPrompt => EffectView::CommandPrompt,
            Effect::Shutdown => EffectView::Shutdown,
        }
    }
}

/// The effects of `effects`, each by its view.
pub open spec fn effects_view(effects: Seq<Effect>) -> Seq<EffectView> {
    Seq::new(effects.len(), |i: int| effects[i]@)
}

/// The backends of `clients`, each by its view.
pub open spec fn clients_view(clients: Seq<Client>) -> Seq<ClientView> {
    Seq::new(clients.len(), |i: int| clients[i]@)
}

/// The selection `select` after its list has changed to `len` entries: it
/// stays where it is if the list still has that entry, goes to the last
/// entry if not, and is dropped where the list is empty.
pub open spec fn kept_in_range(select: Option<usize>, len: nat) -> Option<usize> {
    match select {
        None => None,
        Some(s) => if len == 0 {
            None
        } else if s < len {
            Some(s)
        } else {
            Some((len - 1) as usize)
        },
    }
}

/// The steps that a move of the menu cursor makes within the focused list.
pub open spec fn menu_offset(action: MenuCtrl) -> int {
    match action {
        MenuCtrl::Next => 1,
        MenuCtrl::Prev => -1,
        MenuCtrl::NextMenu => 0,
        MenuCtrl::PrevMenu => 0,
        MenuCtrl::Offset(off) => off as int,
    }
}

/// The level of the menu that has the focus after a move from `menu`.
pub open spec fn menu_after(menu: Menu, action: MenuCtrl) -> Menu {
    match action {
        MenuCtrl::NextMenu => menu.entered(),
        MenuCtrl::PrevMenu => menu.left(),
        _ => menu,
    }
}

/// The index of the first playlist of `lists` with the id `id`.
pub open spec fn first_with_id(lists: Seq<PlaylistInfoView>, id: Seq<char>) -> Option<usize> {
    if has_id(lists, id) {
        Some((choose|i: int| is_first_with_id(lists, id, i)) as usize)
    } else {
        None
    }
}

/// Only one playlist is the first with a given id.
pub proof fn lemma_first_with_id(lists: Seq<PlaylistInfoView>, id: Seq<char>, i: int)
    requires
        is_first_with_id(lists, id, i),
    ensures
        first_with_id(lists, id) == Some(i as usize),
{
    assert(has_id(lists, id));
    let j = choose|j: int| is_first_with_id(lists, id, j);
    assert(i == j) by {
        if i < j {
            assert(lists[i].id != id);
        }
        if j < i {
            assert(lists[j].id != id);
        }
    }
}

/// What an [`Orchestrator`] stands for in contracts: the backends as they
/// were last heard of, and the state that is shown.
pub struct OrchestratorView {
    pub clients: Seq<ClientView>,
    pub state: StateView,
    pub tui_refresh: bool,
}

impl OrchestratorView {
    /// No list is longer than a vector can be. This holds of the view of
    /// every orchestrator.
    pub open spec fn bounded(self) -> bool {
        &&& self.clients.len() <= usize::MAX
        &&& self.state.clients.len() <= usize::MAX
        &&& self.state.playlists.len() <= usize::MAX
        &&& self.state.songs.len() <= usize::MAX
        &&& forall|c: int|
            0 <= c < self.clients.len() ==> (#[trigger] self.clients[c]).playlists.len()
                <= usize::MAX
        &&& forall|c: int, i: int|
            0 <= c < self.clients.len() && 0 <= i < self.clients[c].playlists.len() ==> (
            #[trigger] self.clients[c].playlists[i]).songs.len() <= usize::MAX
    }

    /// The state shows the backends that there are, and every selection is
    /// an entry of its list.
    pub open spec fn well_formed(self) -> bool {
        &&& self.state.clients.len() == self.clients.len()
        &&& forall|i: int|
            0 <= i < self.clients.len() ==> self.state.clients[i] == (#[trigger] self.clients[i]).name
        &&& selection_in_range(self.state.client_select, self.clients.len())
        &&& selection_in_range(self.state.playlist_select, self.state.playlists.len())
        &&& selection_in_range(self.state.song_select, self.state.songs.len())
        &&& selection_in_range(self.state.active_player, self.clients.len())
    }

    /// The state with the data of the backends taken in: the player is that
    /// of the active backend, the playlists are those of the selected
    /// backend, and the songs are those of the selected playlist. Selections
    /// stay within their lists.
    pub open spec fn synced(self) -> OrchestratorView {
        let player = match self.state.active_player {
            Some(p) => if p < self.clients.len() {
                self.clients[p as int].player_info
            } else {
                self.state.player
            },
            None => self.state.player,
        };
        match self.state.client_select {
            Some(c) => if c < self.clients.len() {
                let playlists = self.clients[c as int].playlists;
                let playlist_select = kept_in_range(self.state.playlist_select, playlists.len());
                let songs = self.clients[c as int].playlist_at(playlist_select).songs;
                OrchestratorView {
                    state: StateView {
                        player,
                        playlists,
                        playlist_select,
                        songs,
                        song_select: kept_in_range(self.state.song_select, songs.len()),
                        ..self.state
                    },
                    ..self
                }
            } else {
                OrchestratorView { state: StateView { player, ..self.state }, ..self }
            },
            None => OrchestratorView { state: StateView { player, ..self.state }, ..self },
        }
    }

    /// The state after the selection of the focused level has moved by
    /// `off`. A move among the backends shows the playlists of the backend
    /// then selected and drops the selection of playlist and song; a move
    /// among the playlists shows the songs of the playlist then selected and
    /// drops the selection of song.
    pub open spec fn moved(self, off: int) -> OrchestratorView {
        match self.state.active_menu {
            Menu::Client => {
                let client_select = offset_select(
                    self.state.client_select,
                    off,
                    self.state.clients.len(),
                );
                let playlists = match client_select {
                    Some(c) => if c < self.clients.len() {
                        self.clients[c as int].playlists
                    } else {
                        Seq::empty()
                    },
                    None => Seq::empty(),
                };
                OrchestratorView {
                    state: StateView {
                        client_select,
                        playlists,
                        playlist_select: None,
                        songs: Seq::empty(),
                        song_select: None,
                        ..self.state
                    },
                    ..self
                }
            },
            Menu::Playlist => {
                let playlist_select = offset_select(
                    self.state.playlist_select,
                    off,
                    self.state.playlists.len(),
                );
                let songs = match self.state.client_select {
                    Some(c) => if c < self.clients.len() {
                        self.clients[c as int].playlist_at(playlist_select).songs
                    } else {
                        Seq::empty()
                    },
                    None => Seq::empty(),
                };
                OrchestratorView {
                    state: StateView { playlist_select, songs, song_select: None, ..self.state },
                    ..self
                }
            },
            Menu::Song => OrchestratorView {
                state: StateView {
                    song_select: offset_select(
                        self.state.song_select,
                        off,
                        self.state.songs.len(),
                    ),
                    ..self.state
                },
                ..self
            },
        }
    }

    /// The orchestrator with the focus on `menu`.
    pub open spec fn focused(self, menu: Menu) -> OrchestratorView {
        OrchestratorView { state: StateView { active_menu: menu, ..self.state }, ..self }
    }

    /// The requests that refresh what is shown: the selected backend is
    /// asked for its playlists and for the selected playlist, and the active
    /// backend for the state of its player.
    pub open spec fn refresh_requests(self) -> Seq<EffectView> {
        let of_client = match self.state.client_select {
            Some(c) => if c < self.clients.len() {
                let list = seq![
                    EffectView::Send {
                        client: c,
                        request: RequestView::Get(GetRequestView::PlaylistList),
                    },
                ];
                match self.state.playlist_select {
                    Some(i) => if i < self.clients[c as int].playlists.len() {
                        list.push(
                            EffectView::Send {
                                client: c,
                                request: RequestView::Get(
                                    GetRequestView::Playlist(
                                        self.clients[c as int].playlists[i as int].id,
                                    ),
                                ),
                            },
                        )
                    } else {
                        list
                    },
                    None => list,
                }
            } else {
                Seq::empty()
            },
            None => Seq::empty(),
        };
        match self.state.active_player {
            Some(p) => if p < self.clients.len() {
                of_client.push(
                    EffectView::Send {
                        client: p,
                        request: RequestView::Get(GetRequestView::PlayerInfo),
                    },
                )
            } else {
                of_client
            },
            None => of_client,
        }
    }

    /// The state is handed to the render surface, unless rendering is held.
    pub open spec fn render_effects(self) -> Seq<EffectView> {
        if self.tui_refresh {
            seq![EffectView::Render]
        } else {
            Seq::empty()
        }
    }

    /// The orchestrator after a move of the menu cursor.
    pub open spec fn after_menu(self, action: MenuCtrl) -> OrchestratorView {
        self.focused(menu_after(self.state.active_menu, action)).moved(
            menu_offset(action),
        ).synced()
    }

    /// What a move of the menu cursor has the caller do: refresh what the
    /// cursor is on, then render.
    pub open spec fn menu_effects(self, action: MenuCtrl) -> Seq<EffectView> {
        let moved = self.focused(menu_after(self.state.active_menu, action)).moved(
            menu_offset(action),
        );
        moved.refresh_requests() + moved.render_effects()
    }

    /// The backend that plays, if any does.
    pub open spec fn active(self) -> Option<usize> {
        match self.state.active_player {
            Some(p) => if p < self.clients.len() {
                Some(p)
            } else {
                None
            },
            None => None,
        }
    }

    /// The backend that is selected, if any is.
    pub open spec fn current(self) -> Option<usize> {
        match self.state.client_select {
            Some(c) => if c < self.clients.len() {
                Some(c)
            } else {
                None
            },
            None => None,
        }
    }

    /// The orchestrator after a playback intent: with a backend active, its
    /// data is taken in; without one, nothing changes.
    pub open spec fn after_player(self) -> OrchestratorView {
        if self.active() is Some {
            self.synced()
        } else {
            self
        }
    }

    /// What a playback intent has the caller do: send it to the active
    /// backend and render, or nothing at all where no backend is active.
    pub open spec fn player_effects(self, action: PlayerActionView) -> Seq<EffectView> {
        match self.active() {
            Some(p) => seq![
                EffectView::Send { client: p, request: RequestView::PlayerAction(action) },
            ] + self.render_effects(),
            None => Seq::empty(),
        }
    }

    /// The orchestrator after autoplay was toggled: turning it on makes the
    /// selected backend the active one.
    pub open spec fn after_toggle_auto(self) -> OrchestratorView {
        if !self.state.player.autoplay && self.state.playlist_select is Some {
            OrchestratorView {
                state: StateView { active_player: self.current(), ..self.state },
                ..self
            }
        } else {
            self
        }
    }

    /// What toggling autoplay has the caller do. With autoplay on, the
    /// active backend is told to end it and to stop. With autoplay off and a
    /// playlist selected, the selected backend is given that playlist as its
    /// track list and told to start.
    pub open spec fn toggle_auto_effects(self) -> Seq<EffectView> {
        if self.state.player.autoplay {
            match self.active() {
                Some(p) => seq![
                    EffectView::Send {
                        client: p,
                        request: RequestView::PlayerAction(PlayerActionView::Autoplay(false)),
                    },
                    EffectView::Send {
                        client: p,
                        request: RequestView::PlayerAction(PlayerActionView::Stop),
                    },
                ],
                None => Seq::empty(),
            }
        } else {
            match (self.state.playlist_select, self.current()) {
                (Some(select), Some(c)) => seq![
                    EffectView::Send {
                        client: c,
                        request: RequestView::PlayerAction(
                            PlayerActionView::SetTrackList(
                                self.clients[c as int].playlist_at(Some(select)),
                            ),
                        ),
                    },
                    EffectView::Send {
                        client: c,
                        request: RequestView::PlayerAction(PlayerActionView::Autoplay(true)),
                    },
                ],
                _ => Seq::empty(),
            }
        }
    }

    /// The orchestrator with the cursor on the track that plays: the active
    /// backend is selected, its playlist with the id of the track list is,
    /// and in it the track that plays. Without an active backend, or without
    /// a track that plays, nothing changes.
    pub open spec fn after_select_playing(self) -> OrchestratorView {
        match (self.active(), self.state.player.track_index) {
            (Some(p), Some(index)) => {
                let playlists = self.clients[p as int].playlists;
                let playlist_select = first_with_id(playlists, self.state.player.tracklist.id);
                let songs = self.clients[p as int].playlist_at(playlist_select).songs;
                OrchestratorView {
                    state: StateView {
                        client_select: Some(p),
                        playlists,
                        playlist_select,
                        songs,
                        song_select: if index < songs.len() {
                            Some(index)
                        } else {
                            None
                        },
                        active_menu: Menu::Song,
                        ..self.state
                    },
                    ..self
                }
            },
            _ => self,
        }
    }

    /// The orchestrator after an action.
    pub open spec fn after_action(self, action: Action) -> OrchestratorView {
        match action {
            Action::PauseRender(val) => OrchestratorView { tui_refresh: val, ..self },
            Action::Player(_) => self.after_player(),
            Action::Menu(move_) => self.after_menu(move_),
            Action::Update => self.synced(),
            Action::CloseAlert => if self.state.alerts.len() > 0 {
                OrchestratorView {
                    state: StateView { alerts: self.state.alerts.drop_last(), ..self.state },
                    ..self
                }
            } else {
                self
            },
            Action::Alert(text) => OrchestratorView {
                state: StateView { alerts: self.state.alerts.push(text@), ..self.state },
                ..self
            },
            Action::ToggleAuto => self.after_toggle_auto(),
            Action::GoToCurrent => self.after_select_playing(),
            Action::Render => self,
            Action::CommandPrompt => self,
            Action::Quit => self,
        }
    }

    /// What an action has the caller do.
    pub open spec fn action_effects(self, action: Action) -> Seq<EffectView> {
        match action {
            Action::Render => self.render_effects(),
            Action::Player(intent) => self.player_effects(intent@),
            Action::Menu(move_) => self.menu_effects(move_),
            Action::Quit => seq![EffectView::Shutdown],
            Action::ToggleAuto => self.toggle_auto_effects(),
            Action::CommandPrompt => seq![EffectView::CommandPrompt],
            _ => Seq::empty(),
        }
    }

    /// The orchestrator after an event.
    pub open spec fn after_event(self, event: MyEvents) -> OrchestratorView {
        match event {
            MyEvents::RefreshPlayerState => self.synced(),
            MyEvents::Action(action) => self.after_action(action),
            MyEvents::Widget(_) => self,
            MyEvents::Command(_) => self,
        }
    }

    /// What an event has the caller do. A new player snapshot goes to the
    /// control surface and to the render surface at once; a dialog is shown;
    /// a command goes to the selected backend.
    pub open spec fn event_effects(self, event: MyEvents) -> Seq<EffectView> {
        match event {
            MyEvents::RefreshPlayerState => seq![EffectView::Control] + self.render_effects(),
            MyEvents::Action(action) => self.action_effects(action),
            MyEvents::Widget(widget) => seq![EffectView::ShowWidget(widget)],
            MyEvents::Command(text) => match self.current() {
                Some(c) => seq![EffectView::Send { client: c, request: RequestView::Command(text@) }],
                None => Seq::empty(),
            },
        }
    }

    /// The orchestrator without the backend at `index`: the backend is gone
    /// from the list, nothing is selected any more, and the active backend
    /// is none if it was the one that left, and the same one as before
    /// otherwise.
    pub open spec fn without_client(self, index: int) -> OrchestratorView
        recommends
            0 <= index < self.clients.len(),
    {
        OrchestratorView {
            clients: self.clients.remove(index),
            state: StateView {
                clients: self.state.clients.remove(index),
                client_select: None,
                playlists: Seq::empty(),
                playlist_select: None,
                songs: Seq::empty(),
                song_select: None,
                active_player: match self.state.active_player {
                    Some(p) => if p == index {
                        None
                    } else if p > index {
                        Some((p - 1) as usize)
                    } else {
                        Some(p)
                    },
                    None => None,
                },
                ..self.state
            },
            ..self
        }
    }
}

impl Clone for State {
    fn clone(&self) -> (r: State)
        ensures
            r@ == self@,
    {
        State {
            clients: ListHolder {
                entries: clone_texts(&self.clients.entries),
                select: self.clients.select,
            },
            playlists: ListHolder {
                entries: clone_playlists(&self.playlists.entries),
                select: self.playlists.select,
            },
            songs: ListHolder {
                entries: clone_songs(&self.songs.entries),
                select: self.songs.select,
            },
            alerts: clone_texts(&self.alerts),
            player: self.player.clone(),
            active_player: self.active_player,
            active_menu: self.active_menu,
        }
    }
}

impl State {
    /// Each list of the state is as long as the vector that holds it.
    pub proof fn lemma_lengths(&self)
        ensures
            self@.clients.len() == self.clients.entries@.len() <= usize::MAX,
            self@.playlists.len() == self.playlists.entries@.len() <= usize::MAX,
            self@.songs.len() == self.songs.entries@.len() <= usize::MAX,
            self@.alerts.len() == self.alerts@.len() <= usize::MAX,
    {
        assert(self.clients.entries.len() == self.clients.entries@.len());
        assert(self.playlists.entries.len() == self.playlists.entries@.len());
        assert(self.songs.entries.len() == self.songs.entries@.len());
        assert(self.alerts.len() == self.alerts@.len());
    }

    /// Moves the focus one level in.
    pub fn go_next_menu(&mut self)
        ensures
            final(self)@ == (StateView { active_menu: old(self)@.active_menu.entered(), ..old(self)@ }),
    {
        self.active_menu = self.active_menu.next();
    }

    /// Moves the focus one level out.
    pub fn go_prev_menu(&mut self)
        ensures
            final(self)@ == (StateView { active_menu: old(self)@.active_menu.left(), ..old(self)@ }),
    {
        self.active_menu = self.active_menu.prev();
    }

    /// Whether `menu` has the focus and takes the keys: it does not while an
    /// alert is shown.
    pub fn is_active_menu(&self, menu: Menu) -> (r: bool)
        ensures
            r == (self.active_menu == menu && self.alerts@.len() == 0),
    {
        self.active_menu == menu && self.alerts.len() == 0
    }
}

/// Adds one effect to the list.
fn emit(out: &mut Vec<Effect>, effect: Effect)
    ensures
        effects_view(final(out)@) == effects_view(old(out)@).push(effect@),
{
    out.push(effect);
    assert(effects_view(out@) =~= effects_view(old(out)@).push(effect@));
}

/// Whether `select` is no entry, or one of `len` entries.
fn in_range(select: Option<usize>, len: usize) -> (r: bool)
    ensures
        r == selection_in_range(select, len as nat),
{
    match select {
        Some(i) => i < len,
        None => true,
    }
}

/// The selection `select` after its list has changed to `len` entries.
fn keep_in_range(select: Option<usize>, len: usize) -> (r: Option<usize>)
    ensures
        r == kept_in_range(select, len as nat),
        selection_in_range(r, len as nat),
{
    match select {
        None => None,
        Some(s) => {
            if len == 0 {
                None
            } else if s < len {
                Some(s)
            } else {
                Some(len - 1)
            }
        },
    }
}

/// The orchestrator: the backends as they were last heard of, and the state
/// that is shown.
#[derive(Debug)]
pub struct Orchestrator {
    pub clients: Vec<Client>,
    pub state: State,
    /// Whether the state is handed to the render surface when it is due.
    pub tui_refresh: bool,
}

impl View for Orchestrator {
    type V = OrchestratorView;

    open spec fn view(&self) -> OrchestratorView {
        OrchestratorView {
            clients: clients_view(self.clients@),
            state: self.state@,
            tui_refresh: self.tui_refresh,
        }
    }
}

impl Orchestrator {
    /// The invariant of the type.
    pub open spec fn well_formed(&self) -> bool {
        self@.well_formed()
    }

    /// Whether the invariant of the type holds.
    pub fn is_well_formed(&self) -> (r: bool)
        ensures
            r == self.well_formed(),
    {
        proof {
            self.state.lemma_lengths();
        }
        let n: usize = self.clients.len();
        if self.state.clients.entries.len() != n {
            return false;
        }
        let mut i: usize = 0;
        while i < n
            invariant
                i <= n,
                n == self.clients@.len(),
                n == self.state.clients.entries@.len(),
                forall|k: int|
                    0 <= k < i ==> self@.state.clients[k] == (#[trigger] self@.clients[k]).name,
            decreases n - i,
        {
            if !(self.state.clients.entries[i] == self.clients[i].name) {
                assert(self@.state.clients[i as int] != self@.clients[i as int].name);
                return false;
            }
            i += 1;
        }
        in_range(self.state.clients.select, n) && in_range(
            self.state.playlists.select,
            self.state.playlists.entries.len(),
        ) && in_range(self.state.songs.select, self.state.songs.entries.len()) && in_range(
            self.state.active_player,
            n,
        )
    }

    /// No list of an orchestrator is longer than a vector can be.
    pub proof fn lemma_bounded(&self)
        ensures
            self@.bounded(),
    {
        self.state.lemma_lengths();
        assert(self.clients.len() == self.clients@.len());
        assert forall|c: int| 0 <= c < self@.clients.len() implies (
        #[trigger] self@.clients[c]).playlists.len() <= usize::MAX by {
            assert(self.clients@[c].playlists_info.len() == self.clients@[c].playlists_info@.len());
        }
        assert forall|c: int, i: int|
            0 <= c < self@.clients.len() && 0 <= i < self@.clients[c].playlists.len() implies (
        #[trigger] self@.clients[c].playlists[i]).songs.len() <= usize::MAX by {
            let songs = self.clients@[c].playlists_info@[i].songs;
            assert(songs.len() == songs@.len());
        }
    }

    /// Takes the data of the backends into the state.
    pub fn update_state(&mut self)
        requires
            old(self).well_formed(),
        ensures
            final(self)@ == old(self)@.synced(),
            final(self).well_formed(),
    {
        if let Some(p) = self.state.active_player {
            if p < self.clients.len() {
                self.state.player = self.clients[p].get_player_info();
            }
        }
        if let Some(c) = self.state.clients.select {
            if c < self.clients.len() {
                let lists = self.clients[c].get_playlists();
                let playlist_select = keep_in_range(self.state.playlists.select, lists.len());
                let songs = self.clients[c].get_songs(playlist_select);
                assert(songs_view(songs@).len() == songs@.len());
                let song_select = keep_in_range(self.state.songs.select, songs.len());
                self.state.playlists.entries = lists;
                self.state.playlists.select = playlist_select;
                self.state.songs.entries = songs;
                self.state.songs.select = song_select;
            }
        }
        proof {
            self.state.lemma_lengths();
        }
    }

    /// Moves the selection of the focused level by `offset`.
    pub fn offset(&mut self, offset: isize)
        requires
            old(self).well_formed(),
        ensures
            final(self)@ == old(self)@.moved(offset as int),
            final(self).well_formed(),
    {
        match self.state.active_menu {
            Menu::Client => {
                assert(old(self)@.state.clients.len() == self.state.clients.entries@.len());
                self.state.clients.offset(offset);
                let lists: Vec<PlaylistInfo> = match self.state.clients.select {
                    Some(c) => {
                        if c < self.clients.len() {
                            self.clients[c].get_playlists()
                        } else {
                            Vec::new()
                        }
                    },
                    None => Vec::new(),
                };
                self.state.playlists.entries = lists;
                self.state.playlists.select = None;
                self.state.songs.entries = Vec::new();
                self.state.songs.select = None;
                assert(self@.state.songs =~= Seq::<SongInfoView>::empty());
                assert(self@.state.playlists =~= old(self)@.moved(offset as int).state.playlists);
            },
            Menu::Playlist => {
                assert(old(self)@.state.playlists.len() == self.state.playlists.entries@.len());
                self.state.playlists.offset(offset);
                let songs: Vec<SongInfo> = match self.state.clients.select {
                    Some(c) => {
                        if c < self.clients.len() {
                            self.clients[c].get_songs(self.state.playlists.select)
                        } else {
                            Vec::new()
                        }
                    },
                    None => Vec::new(),
                };
                self.state.songs.entries = songs;
                self.state.songs.select = None;
                assert(self@.state.songs =~= old(self)@.moved(offset as int).state.songs);
            },
            Menu::Song => {
                assert(old(self)@.state.songs.len() == self.state.songs.entries@.len());
                self.state.songs.offset(offset);
            },
        }
        proof {
            self.state.lemma_lengths();
        }
    }

    /// Has the state rendered, unless rendering is held.
    pub fn render(&self, out: &mut Vec<Effect>)
        ensures
            effects_view(final(out)@) == effects_view(old(out)@) + self@.render_effects(),
    {
        if self.tui_refresh {
            emit(out, Effect::Render);
        }
        assert(effects_view(out@) =~= effects_view(old(out)@) + self@.render_effects());
    }

    /// Asks the backends for what is shown, and takes in what they have
    /// sent so far.
    pub fn refresh(&mut self, out: &mut Vec<Effect>)
        requires
            old(self).well_formed(),
        ensures
            final(self)@ == old(self)@.synced(),
            final(self).well_formed(),
            effects_view(final(out)@) == effects_view(old(out)@) + old(self)@.refresh_requests(),
    {
        if let Some(c) = self.state.clients.select {
            if c < self.clients.len() {
                emit(out, Effect::Send { client: c, request: self.clients[c].update_playlistlist() });
                match self.clients[c].update_playlist(self.state.playlists.select) {
                    Some(request) => emit(out, Effect::Send { client: c, request }),
                    None => {},
                }
            }
        }
        if let Some(p) = self.state.active_player {
            if p < self.clients.len() {
                emit(out, Effect::Send { client: p, request: self.clients[p].update_player_info() });
            }
        }
        assert(effects_view(out@) =~= effects_view(old(out)@) + old(self)@.refresh_requests());
        self.update_state();
    }

    /// Selects the first backend, if there is one. This is where a run begins.
    pub fn start(&mut self)
        requires
            old(self).well_formed(),
        ensures
            final(self).well_formed(),
            final(self)@ == (OrchestratorView {
                state: StateView {
                    client_select: if old(self)@.clients.len() > 0 {
                        Some(0usize)
                    } else {
                        None
                    },
                    ..old(self)@.state
                },
                ..old(self)@
            }),
    {
        if self.clients.len() > 0 {
            self.state.clients.select(Some(0));
        } else {
            self.state.clients.select(None);
        }
    }

    /// Takes in one answer of the backend at `index`, and says what event it
    /// amounts to. An answer of a backend that is not there is dropped.
    pub fn update_client(&mut self, index: usize, answer: Answer) -> (event: Option<MyEvents>)
        requires
            old(self).well_formed(),
        ensures
            final(self).well_formed(),
            final(self).state == old(self).state,
            final(self).tui_refresh == old(self).tui_refresh,
            final(self).clients@.len() == old(self).clients@.len(),
            index >= old(self).clients@.len() ==> final(self).clients == old(self).clients
                && event is None,
            index < old(self).clients@.len() ==> {
                &&& forall|i: int|
                    0 <= i < old(self).clients@.len() && i != index ==> final(self).clients@[i]
                        == old(self).clients@[i]
                &&& final(self).clients@[index as int].name == old(self).clients@[index as int].name
                &&& answered(old(self).clients@[index as int], answer, final(self).clients@[index as int], event)
            },
    {
        if index < self.clients.len() {
            let mut client = self.clients.remove(index);
            let ghost before = client;
            let event = client.handle_answer(answer);
            self.clients.insert(index, client);
            assert(self.clients@.len() == old(self).clients@.len());
            assert forall|i: int| 0 <= i < self.clients@.len() implies self@.state.clients[i] == (
            #[trigger] self@.clients[i]).name by {
                assert(old(self)@.clients[i].name == old(self)@.state.clients[i]);
            }
            event
        } else {
            None
        }
    }

    /// What the orchestrator does when the state is due: it takes in the
    /// data of the backends and hands the result to the control surface and
    /// to the render surface.
    pub fn tick_state(&mut self, out: &mut Vec<Effect>)
        requires
            old(self).well_formed(),
        ensures
            final(self)@ == old(self)@.synced(),
            final(self).well_formed(),
            effects_view(final(out)@) == effects_view(old(out)@) + (seq![EffectView::Control]
                + old(self)@.render_effects()),
    {
        self.update_state();
        self.send_dbus(out);
        self.render(out);
        assert(effects_view(out@) =~= effects_view(old(out)@) + (seq![EffectView::Control]
            + old(self)@.render_effects()));
    }

    /// Has the state of the player handed to the control surface.
    pub fn send_dbus(&self, out: &mut Vec<Effect>)
        ensures
            effects_view(final(out)@) == effects_view(old(out)@).push(EffectView::Control),
    {
        emit(out, Effect::Control);
    }

    /// Ends the run.
    pub fn quit(&self, out: &mut Vec<Effect>)
        ensures
            effects_view(final(out)@) == effects_view(old(out)@).push(EffectView::Shutdown),
    {
        emit(out, Effect::Shutdown);
    }

    /// Passes a playback intent on to the active backend. Without an active
    /// backend the intent is dropped: nothing is sent and nothing changes.
    pub fn handle_player(&mut self, action: PlayerAction, out: &mut Vec<Effect>)
        requires
            old(self).well_formed(),
        ensures
            final(self)@ == old(self)@.after_player(),
            final(self).well_formed(),
            effects_view(final(out)@) == effects_view(old(out)@) + old(self)@.player_effects(
                action@,
            ),
    {
        if let Some(player) = self.state.active_player {
            if player < self.clients.len() {
                emit(out, Effect::Send { client: player, request: Request::PlayerAction(action) });
                self.update_state();
                self.render(out);
            }
        }
        assert(effects_view(out@) =~= effects_view(old(out)@) + old(self)@.player_effects(
            action@,
        ));
    }

    /// Moves the menu cursor, then refreshes what it is on and renders.
    pub fn handle_menu(&mut self, action: MenuCtrl, out: &mut Vec<Effect>)
        requires
            old(self).well_formed(),
        ensures
            final(self)@ == old(self)@.after_menu(action),
            final(self).well_formed(),
            effects_view(final(out)@) == effects_view(old(out)@) + old(self)@.menu_effects(action),
    {
        let menu: Menu = match action {
            MenuCtrl::NextMenu => self.state.active_menu.next(),
            MenuCtrl::PrevMenu => self.state.active_menu.prev(),
            _ => self.state.active_menu,
        };
        let off: isize = match action {
            MenuCtrl::Next => 1,
            MenuCtrl::Prev => -1,
            MenuCtrl::NextMenu => 0,
            MenuCtrl::PrevMenu => 0,
            MenuCtrl::Offset(off) => off,
        };
        self.state.active_menu = menu;
        let ghost focused = self@;
        assert(focused == old(self)@.focused(menu_after(old(self)@.state.active_menu, action)));
        self.offset(off);
        let ghost moved = self@;
        assert(moved == focused.moved(menu_offset(action)));
        self.refresh(out);
        self.render(out);
        assert(self@.render_effects() == moved.render_effects());
        assert(effects_view(out@) == (effects_view(old(out)@) + moved.refresh_requests())
            + moved.render_effects());
        assert(effects_view(out@) =~= effects_view(old(out)@) + (moved.refresh_requests()
            + moved.render_effects()));
    }

    /// Turns autoplay off where it is on, and on where a playlist is
    /// selected to play.
    pub fn toggle_auto(&mut self, out: &mut Vec<Effect>)
        requires
            old(self).well_formed(),
        ensures
            final(self)@ == old(self)@.after_toggle_auto(),
            final(self).well_formed(),
            effects_view(final(out)@) == effects_view(old(out)@) + old(self)@.toggle_auto_effects(),
    {
        if self.state.player.autoplay {
            if let Some(player) = self.state.active_player {
                if player < self.clients.len() {
                    emit(
                        out,
                        Effect::Send {
                            client: player,
                            request: Request::PlayerAction(PlayerAction::Autoplay(false)),
                        },
                    );
                    emit(
                        out,
                        Effect::Send {
                            client: player,
                            request: Request::PlayerAction(PlayerAction::Stop),
                        },
                    );
                }
            }
        } else if let Some(select) = self.state.playlists.select {
            let current: Option<usize> = match self.state.clients.select {
                Some(c) => if c < self.clients.len() {
                    Some(c)
                } else {
                    None
                },
                None => None,
            };
            self.state.active_player = current;
            if let Some(client) = current {
                let playlist = self.clients[client].get_playlist(Some(select));
                emit(
                    out,
                    Effect::Send {
                        client,
                        request: Request::PlayerAction(PlayerAction::SetTrackList(playlist)),
                    },
                );
                emit(
                    out,
                    Effect::Send {
                        client,
                        request: Request::PlayerAction(PlayerAction::Autoplay(true)),
                    },
                );
            }
        }
        assert(effects_view(out@) =~= effects_view(old(out)@) + old(self)@.toggle_auto_effects());
    }

    /// Puts the menu cursor on the track that plays.
    pub fn select_playing(&mut self)
        requires
            old(self).well_formed(),
        ensures
            final(self)@ == old(self)@.after_select_playing(),
            final(self).well_formed(),
    {
        if let Some(player) = self.state.active_player {
            if player < self.clients.len() {
                if let Some(index) = self.state.player.track_index {
                    let lists = self.clients[player].get_playlists();
                    let playlist_select = find_playlist(&lists, &self.state.player.tracklist.id);
                    proof {
                        if let Some(i) = playlist_select {
                            lemma_first_with_id(
                                playlists_view(lists@),
                                self.state.player.tracklist.id@,
                                i as int,
                            );
                        }
                    }
                    let songs = self.clients[player].get_songs(playlist_select);
                    assert(songs_view(songs@).len() == songs@.len());
                    self.state.clients.select = Some(player);
                    self.state.playlists.entries = lists;
                    self.state.playlists.select = playlist_select;
                    self.state.songs.select = if index < songs.len() {
                        Some(index)
                    } else {
                        None
                    };
                    self.state.songs.entries = songs;
                    self.state.active_menu = Menu::Song;
                }
            }
        }
        proof {
            self.state.lemma_lengths();
        }
    }

    /// Takes note that the backend at `index` has gone: it leaves the list
    /// of backends, and no selection points at it any more. An index at
    /// which there is no backend changes nothing.
    pub fn client_closed(&mut self, index: usize)
        requires
            old(self).well_formed(),
        ensures
            final(self)@ == if index < old(self)@.clients.len() {
                old(self)@.without_client(index as int)
            } else {
                old(self)@
            },
            final(self).well_formed(),
    {
        if index >= self.clients.len() {
            return ;
        }
        proof {
            self.state.lemma_lengths();
        }
        self.clients.remove(index);
        self.state.clients.entries.remove(index);
        self.state.clients.select = None;
        self.state.playlists.entries = Vec::new();
        self.state.playlists.select = None;
        self.state.songs.entries = Vec::new();
        self.state.songs.select = None;
        self.state.active_player = match self.state.active_player {
            Some(p) => if p == index {
                None
            } else if p > index {
                Some(p - 1)
            } else {
                Some(p)
            },
            None => None,
        };
        proof {
            let model = old(self)@.without_client(index as int);
            assert(self@.clients =~= model.clients);
            assert(self@.state.clients =~= model.state.clients);
            assert(self@.state.playlists =~= model.state.playlists);
            assert(self@.state.songs =~= model.state.songs);
            self.state.lemma_lengths();
        }
    }

    /// Carries out an action.
    pub fn handle_action(&mut self, action: Action, out: &mut Vec<Effect>)
        requires
            old(self).well_formed(),
        ensures
            final(self)@ == old(self)@.after_action(action),
            final(self).well_formed(),
            effects_view(final(out)@) == effects_view(old(out)@) + old(self)@.action_effects(action),
    {
        proof {
            self.state.lemma_lengths();
        }
        match action {
            Action::Render => self.render(out),
            Action::PauseRender(val) => {
                self.tui_refresh = val;
            },
            Action::Player(intent) => self.handle_player(intent, out),
            Action::Menu(move_) => self.handle_menu(move_, out),
            Action::Quit => self.quit(out),
            Action::Update => self.update_state(),
            Action::CloseAlert => {
                let _ = self.state.alerts.pop();
                assert(self@.state.alerts =~= old(self)@.after_action(action).state.alerts);
            },
            Action::Alert(alert) => {
                self.state.alerts.push(alert);
                assert(self@.state.alerts =~= old(self)@.after_action(action).state.alerts);
            },
            Action::ToggleAuto => self.toggle_auto(out),
            Action::GoToCurrent => self.select_playing(),
            Action::CommandPrompt => emit(out, Effect::CommandPrompt),
        }
        assert(effects_view(out@) =~= effects_view(old(out)@) + old(self)@.action_effects(action));
    }

    /// Carries out an event.
    pub fn handle_event(&mut self, event: MyEvents, out: &mut Vec<Effect>)
        requires
            old(self).well_formed(),
        ensures
            final(self)@ == old(self)@.after_event(event),
            final(self).well_formed(),
            effects_view(final(out)@) == effects_view(old(out)@) + old(self)@.event_effects(event),
    {
        match event {
            MyEvents::RefreshPlayerState => self.tick_state(out),
            MyEvents::Action(action) => self.handle_action(action, out),
            MyEvents::Widget(widget) => emit(out, Effect::ShowWidget(widget)),
            MyEvents::Command(command) => {
                if let Some(client) = self.state.clients.select {
                    if client < self.clients.len() {
                        emit(out, Effect::Send { client, request: Request::Command(command) });
                    }
                }
            },
        }
        assert(effects_view(out@) =~= effects_view(old(out)@) + old(self)@.event_effects(event));
    }
}

/// `after` and `event` are what `answer` makes of the backend `before`.
pub open spec fn answered(
    before: Client,
    answer: Answer,
    after: Client,
    event: Option<MyEvents>,
) -> bool {
    match answer {
        Answer::PlayerInfo(info) => {
            &&& after.player_info == info
            &&& after.playlists_info == before.playlists_info
            &&& event == Some(MyEvents::RefreshPlayerState)
        },
        Answer::PlaylistList(lists) => {
            &&& after.playlists_info == lists
            &&& after.player_info == before.player_info
            &&& event is None
        },
        Answer::Playlist(playlist) => {
            &&& upserted(before.playlists(), playlist@, after.playlists())
            &&& after.player_info == before.player_info
            &&& event is None
        },
        Answer::Widget(widget) => {
            &&& after == before
            &&& event == Some(MyEvents::Widget(widget))
        },
        Answer::Done => {
            &&& after == before
            &&& event is None
        },
    }
}

/// Collects the backends before a run.
#[derive(Debug)]
pub struct OrchestratorBuilder {
    pub clients: Vec<Client>,
}

impl OrchestratorBuilder {
    /// A builder without backends.
    pub fn new() -> (r: OrchestratorBuilder)
        ensures
            r.clients@.len() == 0,
    {
        OrchestratorBuilder { clients: Vec::new() }
    }

    /// Adds a backend, of which nothing is known yet, under `name`.
    pub fn add_client(&mut self, name: String)
        ensures
            final(self).clients@.len() == old(self).clients@.len() + 1,
            forall|i: int|
                0 <= i < old(self).clients@.len() ==> final(self).clients@[i] == old(
                    self,
                ).clients@[i],
            final(self).clients@.last().name == name,
            final(self).clients@.last()@.playlists == Seq::<PlaylistInfoView>::empty(),
            final(self).clients@.last()@.player_info == PlayerInfo::empty_view(),
    {
        self.clients.push(Client::new(name));
    }

    /// The orchestrator over the backends collected: it shows them by name,
    /// with nothing selected, no backend active and the focus on the
    /// backends, and it renders.
    pub fn build(self) -> (r: Orchestrator)
        ensures
            r.well_formed(),
            r.clients == self.clients,
            r@.tui_refresh,
            r@.state == (StateView {
                clients: Seq::new(self.clients@.len(), |i: int| self.clients@[i].name@),
                client_select: None,
                playlists: Seq::empty(),
                playlist_select: None,
                songs: Seq::empty(),
                song_select: None,
                alerts: Seq::empty(),
                player: PlayerInfo::empty_view(),
                active_player: None,
                active_menu: Menu::Client,
            }),
    {
        let mut names: Vec<String> = Vec::new();
        let mut i: usize = 0;
        while i < self.clients.len()
            invariant
                i <= self.clients@.len(),
                names@.len() == i,
                forall|k: int| 0 <= k < i ==> names@[k]@ == self.clients@[k].name@,
            decreases self.clients@.len() - i,
        {
            names.push(self.clients[i].name.clone());
            i += 1;
        }
        let state = State {
            clients: ListHolder { entries: names, select: None },
            playlists: ListHolder { entries: Vec::new(), select: None },
            songs: ListHolder { entries: Vec::new(), select: None },
            alerts: Vec::new(),
            player: PlayerInfo::default(),
            active_player: None,
            active_menu: Menu::Client,
        };
        let r = Orchestrator { clients: self.clients, state, tui_refresh: true };
        proof {
            assert(r@.state.clients =~= Seq::new(
                self.clients@.len(),
                |i: int| self.clients@[i].name@,
            ));
            assert(r@.state.playlists =~= Seq::<PlaylistInfoView>::empty());
            assert(r@.state.songs =~= Seq::<SongInfoView>::empty());
            assert(r@.state.alerts =~= Seq::<Seq<char>>::empty());
        }
        r
    }
}

} // verus!
