//! What reaches the orchestrator: the actions of the user and of the control
//! surface, and what the backends report.
use crate::menu::MenuCtrl;
use crate::protocol::{PlayerAction, Widget};
use vstd::prelude::*;

verus! {

/// Something the user, or the control surface, asks for.
#[derive(Debug, PartialEq, Eq)]
pub enum Action {
    Render,
    PauseRender(bool),
    Player(PlayerAction),
    Menu(MenuCtrl),
    Alert(String),
    ToggleAuto,
    CloseAlert,
    CommandPrompt,
    Quit,
    Update,
    GoToCurrent,
}

impl From<PlayerAction> for Action {
    fn from(value: PlayerAction) -> (r: Action)
        ensures
            r == Action::Player(value),
    {
        Action::Player(value)
    }
}

impl vstd::std_specs::convert::FromSpecImpl<PlayerAction> for Action {
    open spec fn obeys_from_spec() -> bool {
        true
    }

    open spec fn from_spec(value: PlayerAction) -> Action {
        Action::Player(value)
    }
}

impl From<MenuCtrl> for Action {
    fn from(value: MenuCtrl) -> (r: Action)
        ensures
            r == Action::Menu(value),
    {
        Action::Menu(value)
    }
}

impl vstd::std_specs::convert::FromSpecImpl<MenuCtrl> for Action {
    open spec fn obeys_from_spec() -> bool {
        true
    }

    open spec fn from_spec(value: MenuCtrl) -> Action {
        Action::Menu(value)
    }
}

/// One event for the orchestrator.
#[derive(Debug)]
pub enum MyEvents {
    /// A backend has sent a new snapshot of its player.
    RefreshPlayerState,
    Action(Action),
    /// A line of free text for the selected backend.
    Command(String),
    /// A dialog that a backend asks to be shown.
    Widget(Widget),
}

impl From<Action> for MyEvents {
    fn from(value: Action) -> (r: MyEvents)
        ensures
            r == MyEvents::Action(value),
    {
        MyEvents::Action(value)
    }
}

impl vstd::std_specs::convert::FromSpecImpl<Action> for MyEvents {
    open spec fn obeys_from_spec() -> bool {
        true
    }

    open spec fn from_spec(value: Action) -> MyEvents {
        MyEvents::Action(value)
    }
}

impl From<PlayerAction> for MyEvents {
    fn from(value: PlayerAction) -> (r: MyEvents)
        ensures
            r == MyEvents::Action(Action::Player(value)),
    {
        MyEvents::Action(Action::Player(value))
    }
}

impl vstd::std_specs::convert::FromSpecImpl<PlayerAction> for MyEvents {
    open spec fn obeys_from_spec() -> bool {
        true
    }

    open spec fn from_spec(value: PlayerAction) -> MyEvents {
        MyEvents::Action(Action::Player(value))
    }
}

impl From<MenuCtrl> for MyEvents {
    fn from(value: MenuCtrl) -> (r: MyEvents)
        ensures
            r == MyEvents::Action(Action::Menu(value)),
    {
        MyEvents::Action(Action::Menu(value))
    }
}

impl vstd::std_specs::convert::FromSpecImpl<MenuCtrl> for MyEvents {
    open spec fn obeys_from_spec() -> bool {
        true
    }

    open spec fn from_spec(value: MenuCtrl) -> MyEvents {
        MyEvents::Action(Action::Menu(value))
    }
}

} // verus!
