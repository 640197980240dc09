//! What holds of the orchestrator whatever it is asked to do.
use crate::menu::{selection_in_range, Menu, MenuCtrl};
use crate::orchestrator::{menu_after, EffectView, OrchestratorView};
use crate::protocol::PlayerActionView;
use vstd::prelude::*;

verus! {

/// The orchestrator after a series of moves of the menu cursor, made one
/// after the other.
pub open spec fn after_menus(v: OrchestratorView, moves: Seq<MenuCtrl>) -> OrchestratorView
    decreases moves.len(),
{
    if moves.len() == 0 {
        v
    } else {
        after_menus(v, moves.drop_last()).after_menu(moves.last())
    }
}

/// A move of the menu cursor leaves every selection on an entry of its list,
/// or on nothing; and on nothing where the list is empty. The backends stay
/// as they are, and so does the choice of the active one.
pub proof fn lemma_menu_keeps_selections_in_range(v: OrchestratorView, action: MenuCtrl)
    requires
        v.well_formed(),
        v.bounded(),
    ensures
        ({
            let after = v.after_menu(action);
            &&& after.well_formed()
            &&& after.bounded()
            &&& after.state.clients.len() == 0 ==> after.state.client_select is None
            &&& after.state.playlists.len() == 0 ==> after.state.playlist_select is None
            &&& after.state.songs.len() == 0 ==> after.state.song_select is None
            &&& after.clients == v.clients
            &&& after.state.clients == v.state.clients
            &&& after.state.active_player == v.state.active_player
        }),
{
}

/// However many moves of the menu cursor are made, and whichever, every
/// selection stays on an entry of its list, or on nothing; and on nothing
/// where the list is empty.
pub proof fn lemma_menus_keep_selections_in_range(v: OrchestratorView, moves: Seq<MenuCtrl>)
    requires
        v.well_formed(),
        v.bounded(),
    ensures
        ({
            let after = after_menus(v, moves);
            &&& after.well_formed()
            &&& after.bounded()
            &&& selection_in_range(after.state.client_select, after.state.clients.len())
            &&& selection_in_range(after.state.playlist_select, after.state.playlists.len())
            &&& selection_in_range(after.state.song_select, after.state.songs.len())
            &&& after.state.clients.len() == 0 ==> after.state.client_select is None
            &&& after.state.playlists.len() == 0 ==> after.state.playlist_select is None
            &&& after.state.songs.len() == 0 ==> after.state.song_select is None
            &&& after.clients == v.clients
            &&& after.state.clients == v.state.clients
            &&& after.state.active_player == v.state.active_player
        }),
    decreases moves.len(),
{
    if moves.len() > 0 {
        lemma_menus_keep_selections_in_range(v, moves.drop_last());
        lemma_menu_keeps_selections_in_range(after_menus(v, moves.drop_last()), moves.last());
    }
}

/// A move among the backends leaves no playlist and no song selected; a move
/// among the playlists leaves no song selected.
pub proof fn lemma_new_selection_resets_what_is_below(v: OrchestratorView, action: MenuCtrl)
    ensures
        menu_after(v.state.active_menu, action) == Menu::Client ==> {
            &&& v.after_menu(action).state.playlist_select is None
            &&& v.after_menu(action).state.song_select is None
        },
        menu_after(v.state.active_menu, action) == Menu::Playlist ==> v.after_menu(
            action,
        ).state.song_select is None,
{
}

/// Without an active backend a playback intent is dropped: nothing is sent,
/// and the orchestrator stays as it is.
pub proof fn lemma_no_active_backend_drops_intent(v: OrchestratorView, action: PlayerActionView)
    requires
        v.state.active_player is None,
    ensures
        v.player_effects(action) == Seq::<EffectView>::empty(),
        v.after_player() == v,
{
}

/// Once a backend has gone, the list of backends is without it, nothing is
/// selected, the active backend is none if it was the one that left, and it
/// is the same backend as before if it was another.
pub proof fn lemma_closed_backend_leaves(v: OrchestratorView, index: usize)
    requires
        v.well_formed(),
        index < v.clients.len(),
    ensures
        ({
            let after = v.without_client(index as int);
            &&& after.well_formed()
            &&& after.clients.len() == v.clients.len() - 1
            &&& after.state.clients == v.state.clients.remove(index as int)
            &&& after.state.client_select is None
            &&& v.state.active_player == Some(index) ==> after.state.active_player is None
            &&& forall|p: usize|
                v.state.active_player == Some(p) && p != index ==> after.state.active_player
                    is Some && after.clients[after.state.active_player->0 as int]
                    == v.clients[p as int]
        }),
{
    let after = v.without_client(index as int);
    assert(after.clients.len() == v.clients.len() - 1);
    assert(after.state.clients.len() == v.state.clients.len() - 1);
    assert(after.state.playlists.len() == 0);
    assert(after.state.songs.len() == 0);
    assert forall|i: int| 0 <= i < after.clients.len() implies after.state.clients[i] == (
    #[trigger] after.clients[i]).name by {
        if i < index {
            assert(after.clients[i] == v.clients[i]);
            assert(v.state.clients[i] == v.clients[i].name);
        } else {
            assert(after.clients[i] == v.clients[i + 1]);
            assert(v.state.clients[i + 1] == v.clients[i + 1].name);
        }
    }
    assert forall|p: usize| v.state.active_player == Some(p) && p != index implies after.state.active_player
        is Some && after.clients[after.state.active_player->0 as int] == v.clients[p as int] by {
        if p > index {
            assert(after.clients[p - 1] == v.clients[p as int]);
        } else {
            assert(after.clients[p as int] == v.clients[p as int]);
        }
    }
}

} // verus!
