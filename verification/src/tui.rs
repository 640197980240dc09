//! The front end without its screen: the texts it shows of the player, the
//! dialogs it holds, and what it makes of the keys and of the mouse.
use crate::events::{Action, MyEvents};
use crate::menu::MenuCtrl;
use crate::orchestrator::State;
use crate::protocol::{PlayerInfo, PlaylistInfo, Widget as InterfaceWidget};
use crate::text::texts_view;
use vstd::prelude::*;

verus! {

/// The character of a digit.
pub open spec fn digit_char(d: nat) -> char
    recommends
        d < 10,
{
    if d == 0 {
        '0'
    } else if d == 1 {
        '1'
    } else if d == 2 {
        '2'
    } else if d == 3 {
        '3'
    } else if d == 4 {
        '4'
    } else if d == 5 {
        '5'
    } else if d == 6 {
        '6'
    } else if d == 7 {
        '7'
    } else if d == 8 {
        '8'
    } else {
        '9'
    }
}

/// `n` in decimal digits.
pub open spec fn decimal(n: nat) -> Seq<char>
    decreases n,
{
    if n < 10 {
        seq![digit_char(n)]
    } else {
        decimal(n / 10).push(digit_char(n % 10))
    }
}

/// `n` in decimal digits, in at least two of them.
pub open spec fn two_digits(n: nat) -> Seq<char> {
    if n < 10 {
        seq!['0'] + decimal(n)
    } else {
        decimal(n)
    }
}

/// A time in seconds as `HH:MM:SS`, or as `MM:SS` where it is below an hour.
pub open spec fn clock(secs: nat) -> Seq<char> {
    let mins = secs / 60;
    let hours = mins / 60;
    if hours >= 1 {
        two_digits(hours) + seq![':'] + two_digits(mins % 60) + seq![':'] + two_digits(secs % 60)
    } else {
        two_digits(mins % 60) + seq![':'] + two_digits(secs % 60)
    }
}

/// The text of one digit.
fn digit_str(d: u64) -> (r: &'static str)
    requires
        d < 10,
    ensures
        r@ == seq![digit_char(d as nat)],
{
    proof {
        reveal_strlit("0");
        reveal_strlit("1");
        reveal_strlit("2");
        reveal_strlit("3");
        reveal_strlit("4");
        reveal_strlit("5");
        reveal_strlit("6");
        reveal_strlit("7");
        reveal_strlit("8");
        reveal_strlit("9");
    }
    let r = if d == 0 {
        "0"
    } else if d == 1 {
        "1"
    } else if d == 2 {
        "2"
    } else if d == 3 {
        "3"
    } else if d == 4 {
        "4"
    } else if d == 5 {
        "5"
    } else if d == 6 {
        "6"
    } else if d == 7 {
        "7"
    } else if d == 8 {
        "8"
    } else {
        "9"
    };
    assert(r@ =~= seq![digit_char(d as nat)]);
    r
}

/// `n` in decimal digits.
pub fn to_decimal(n: u64) -> (r: String)
    ensures
        r@ == decimal(n as nat),
    decreases n,
{
    if n < 10 {
        digit_str(n).to_owned()
    } else {
        to_decimal(n / 10).concat(digit_str(n % 10))
    }
}

/// `n` in decimal digits, in at least two of them.
fn to_two_digits(n: u64) -> (r: String)
    ensures
        r@ == two_digits(n as nat),
{
    if n < 10 {
        proof {
            reveal_strlit("0");
            assert("0"@ =~= seq!['0']);
        }
        "0".to_owned().concat(to_decimal(n).as_str())
    } else {
        to_decimal(n)
    }
}

/// A time in seconds as `HH:MM:SS`, or as `MM:SS` where it is below an hour.
pub fn duration_to_string(dur: u64) -> (r: String)
    ensures
        r@ == clock(dur as nat),
{
    let secs: u64 = dur;
    let mins: u64 = secs / 60;
    let hours: u64 = mins / 60;
    proof {
        reveal_strlit(":");
        assert(":"@ =~= seq![':']);
    }
    if hours >= 1 {
        to_two_digits(hours).concat(":").concat(to_two_digits(mins % 60).as_str()).concat(":").concat(
            to_two_digits(secs % 60).as_str(),
        )
    } else {
        to_two_digits(mins % 60).concat(":").concat(to_two_digits(secs % 60).as_str())
    }
}

/// How many cells of a bar of `length` cells are filled when `pos` of
/// `dur` seconds have played.
pub open spec fn filled_cells(pos: nat, dur: nat, length: nat) -> nat
    recommends
        dur > 0,
{
    length * pos / dur
}

/// The bar that shows how much of a track has played: `length` cells, the
/// filled ones first, between two end pieces. There is no bar of less than
/// three cells, nor for a track without length, nor for a position beyond
/// the end.
pub open spec fn player_bar(pos: nat, dur: nat, length: nat) -> Seq<char> {
    if length <= 2 || dur == 0 || pos > dur {
        Seq::empty()
    } else {
        Seq::new(
            length,
            |i: int|
                if i == 0 {
                    '├'
                } else if i == length - 1 {
                    '┤'
                } else if i < filled_cells(pos, dur, length) {
                    '█'
                } else {
                    '─'
                },
        )
    }
}

/// The bar that shows how much of a track has played.
pub fn build_player_string(pos: u64, dur: u64, length: usize) -> (r: String)
    ensures
        r@ == player_bar(pos as nat, dur as nat, length as nat),
{
    if length <= 2 || dur == 0 || pos > dur {
        return String::new();
    }
    assert(length as int * pos as int <= length as int * dur as int) by (nonlinear_arith)
        requires
            0 <= pos as int <= dur as int,
            0 <= length as int,
    ;
    assert(length as int * dur as int <= 0xffff_ffff_ffff_ffff * 0xffff_ffff_ffff_ffff)
        by (nonlinear_arith)
        requires
            0 <= length as int <= 0xffff_ffff_ffff_ffff,
            0 <= dur as int <= 0xffff_ffff_ffff_ffff,
    ;
    let filled: u128 = (length as u128) * (pos as u128) / (dur as u128);
    proof {
        reveal_strlit("├");
        reveal_strlit("┤");
        reveal_strlit("█");
        reveal_strlit("─");
        assert("├"@ =~= seq!['├']);
        assert("┤"@ =~= seq!['┤']);
        assert("█"@ =~= seq!['█']);
        assert("─"@ =~= seq!['─']);
    }
    let ghost bar = player_bar(pos as nat, dur as nat, length as nat);
    let mut out: String = "├".to_owned();
    assert(out@ =~= bar.take(1));
    let mut i: usize = 1;
    while i < length - 1
        invariant
            1 <= i <= length - 1,
            length > 2,
            dur > 0,
            pos <= dur,
            filled == filled_cells(pos as nat, dur as nat, length as nat),
            bar == player_bar(pos as nat, dur as nat, length as nat),
            out@ == bar.take(i as int),
            "█"@ == seq!['█'],
            "─"@ == seq!['─'],
        decreases length - i,
    {
        if (i as u128) < filled {
            out.append("█");
        } else {
            out.append("─");
        }
        assert(out@ =~= bar.take(i + 1));
        i += 1;
    }
    out.append("┤");
    assert(out@ =~= bar);
    out
}

/// `flag` as it is written: `true` or `false`.
pub open spec fn flag_text(flag: bool) -> Seq<char> {
    if flag {
        "true"@
    } else {
        "false"@
    }
}

/// `flag` as it is written.
fn flag_string(flag: bool) -> (r: String)
    ensures
        r@ == flag_text(flag),
{
    if flag {
        "true".to_owned()
    } else {
        "false".to_owned()
    }
}

/// The lines that tell the settings of the player.
pub open spec fn info_texts(player: PlayerInfo) -> Seq<Seq<char>> {
    seq![
        "Auto: "@ + flag_text(player.autoplay),
        "Repeat: "@ + player.repeat.label_spec(),
        "Shuffle: "@ + flag_text(player.shuffled),
        "Volume: "@ + decimal(player.volume as nat) + "/100"@,
    ]
}

/// The lines that tell the settings of the player.
pub fn info_lines(player: &PlayerInfo) -> (r: Vec<String>)
    ensures
        texts_view(r@) == info_texts(*player),
{
    let mut lines: Vec<String> = Vec::new();
    lines.push("Auto: ".to_owned().concat(flag_string(player.autoplay).as_str()));
    lines.push("Repeat: ".to_owned().concat(player.repeat.label().as_str()));
    lines.push("Shuffle: ".to_owned().concat(flag_string(player.shuffled).as_str()));
    lines.push(
        "Volume: ".to_owned().concat(to_decimal(player.volume as u64).as_str()).concat("/100"),
    );
    assert(texts_view(lines@) =~= info_texts(*player));
    lines
}

/// The mark that the source that plays carries.
pub open spec fn playing_mark() -> Seq<char> {
    seq![' ', '\u{f001}']
}

/// The lines of the list of sources: their names, with a mark on the one
/// that plays.
pub open spec fn source_texts(state: State) -> Seq<Seq<char>> {
    Seq::new(
        state.clients.entries@.len(),
        |i: int|
            if state.active_player == Some(i as usize) {
                state.clients.entries@[i]@ + playing_mark()
            } else {
                state.clients.entries@[i]@
            },
    )
}

/// The lines of the list of sources.
pub fn source_lines(state: &State) -> (r: Vec<String>)
    ensures
        texts_view(r@) == source_texts(*state),
{
    let mut lines: Vec<String> = Vec::new();
    let mut i: usize = 0;
    proof {
        reveal_strlit(" \u{f001}");
        assert(" \u{f001}"@ =~= playing_mark());
    }
    while i < state.clients.entries.len()
        invariant
            i <= state.clients.entries@.len(),
            lines@.len() == i,
            " \u{f001}"@ == playing_mark(),
            forall|k: int| 0 <= k < i ==> lines@[k]@ == source_texts(*state)[k],
        decreases state.clients.entries@.len() - i,
    {
        let name = state.clients.entries[i].clone();
        let plays: bool = match state.active_player {
            Some(p) => p == i,
            None => false,
        };
        if plays {
            lines.push(name.concat(" \u{f001}"));
        } else {
            lines.push(name);
        }
        i += 1;
    }
    assert(texts_view(lines@) =~= source_texts(*state));
    lines
}

/// The line of a playlist: its title, and in brackets how many of its
/// songs are loaded.
pub open spec fn playlist_text(playlist: PlaylistInfo) -> Seq<char> {
    playlist.title@ + " ("@ + decimal(playlist.songs@.len()) + "/"@ + decimal(
        playlist.length as nat,
    ) + ")"@
}

/// The lines of the list of playlists.
pub fn playlist_lines(state: &State) -> (r: Vec<String>)
    ensures
        texts_view(r@) == Seq::new(
            state.playlists.entries@.len(),
            |i: int| playlist_text(state.playlists.entries@[i]),
        ),
{
    let mut lines: Vec<String> = Vec::new();
    let mut i: usize = 0;
    while i < state.playlists.entries.len()
        invariant
            i <= state.playlists.entries@.len(),
            lines@.len() == i,
            forall|k: int| 0 <= k < i ==> lines@[k]@ == playlist_text(state.playlists.entries@[k]),
        decreases state.playlists.entries@.len() - i,
    {
        let playlist = &state.playlists.entries[i];
        let line = playlist.title.clone().concat(" (").concat(
            to_decimal(playlist.songs.len() as u64).as_str(),
        ).concat("/").concat(to_decimal(playlist.length as u64).as_str()).concat(")");
        lines.push(line);
        i += 1;
    }
    assert(texts_view(lines@) =~= Seq::new(
        state.playlists.entries@.len(),
        |i: int| playlist_text(state.playlists.entries@[i]),
    ));
    lines
}

/// The title of the list of songs: that of the selected playlist, or
/// `Songs` where none is selected.
pub fn songs_title(state: &State) -> (r: String)
    ensures
        r@ == match state.playlists.select {
            Some(i) => if i < state.playlists.entries@.len() {
                state.playlists.entries@[i as int].title@
            } else {
                "Songs"@
            },
            None => "Songs"@,
        },
{
    match state.playlists.select {
        Some(i) => {
            if i < state.playlists.entries.len() {
                state.playlists.entries[i].title.clone()
            } else {
                "Songs".to_owned()
            }
        },
        None => "Songs".to_owned(),
    }
}

/// The length of the track that plays, or zero where none does.
pub open spec fn playing_duration(player: PlayerInfo) -> u64 {
    match player.song_info {
        Some(song) => song.duration,
        None => 0,
    }
}

/// The title of the track that plays, or the empty text where none does.
pub open spec fn playing_title(player: PlayerInfo) -> Seq<char> {
    match player.song_info {
        Some(song) => song.title@,
        None => Seq::empty(),
    }
}

/// The cells that the bar of the player takes in a box `width` cells wide:
/// all but the two of the border.
pub open spec fn bar_cells(width: u16) -> nat {
    if width >= 2 {
        (width - 2) as nat
    } else {
        0
    }
}

/// What is written of the player: the position and the length of the
/// track as clock times, its title, and below them the bar.
pub open spec fn player_texts(player: PlayerInfo, width: u16) -> Seq<char> {
    clock(player.position as nat) + seq!['/'] + clock(playing_duration(player) as nat) + seq![' ']
        + playing_title(player) + seq!['\n'] + player_bar(
        player.position as nat,
        playing_duration(player) as nat,
        bar_cells(width),
    )
}

/// What is written of the player, in a box `width` cells wide.
pub fn player_text(player: &PlayerInfo, width: u16) -> (r: String)
    ensures
        r@ == player_texts(*player, width),
{
    let duration: u64 = match &player.song_info {
        Some(song) => song.duration,
        None => 0,
    };
    let title: String = match &player.song_info {
        Some(song) => song.title.clone(),
        None => String::new(),
    };
    let cells: usize = if width >= 2 {
        (width - 2) as usize
    } else {
        0
    };
    proof {
        reveal_strlit("/");
        reveal_strlit(" ");
        reveal_strlit("\n");
        assert("/"@ =~= seq!['/']);
        assert(" "@ =~= seq![' ']);
        assert("\n"@ =~= seq!['\n']);
    }
    duration_to_string(player.position).concat("/").concat(
        duration_to_string(duration).as_str(),
    ).concat(" ").concat(title.as_str()).concat("\n").concat(
        build_player_string(player.position, duration, cells).as_str(),
    )
}

/// A box on the screen, in cells.
#[derive(Debug, Clone, Copy, PartialEq, Eq, Structural)]
pub struct Rect {
    pub x: u16,
    pub y: u16,
    pub width: u16,
    pub height: u16,
}

/// `x`, or zero where `x` is negative.
pub open spec fn at_least_zero(x: int) -> int {
    if x >= 0 {
        x
    } else {
        0
    }
}

/// The box of a dialog on a screen of the size `size`: three quarters as
/// wide, three quarters as high unless `max_height` says how high, and in
/// the middle, as far as it fits.
pub open spec fn centered(size: Rect, max_height: Option<u16>) -> Rect {
    let width = size.width * 3 / 4;
    let height = match max_height {
        Some(h) => h as int,
        None => size.height * 3 / 4,
    };
    Rect {
        x: at_least_zero(size.width / 2 - width / 2) as u16,
        y: at_least_zero(size.height / 2 - height / 2) as u16,
        width: width as u16,
        height: height as u16,
    }
}

/// The box of a dialog on a screen of the size `size`.
pub fn centered_rec(size: Rect, max_height: Option<u16>) -> (r: Rect)
    ensures
        r == centered(size, max_height),
        r.width <= size.width,
{
    let center_x: u16 = size.width / 2;
    let center_y: u16 = size.height / 2;
    let width: u16 = ((size.width as u32) * 3 / 4) as u16;
    let height: u16 = match max_height {
        Some(h) => h,
        None => ((size.height as u32) * 3 / 4) as u16,
    };
    let corner_x: u16 = if center_x >= width / 2 {
        center_x - width / 2
    } else {
        0
    };
    let corner_y: u16 = if center_y >= height / 2 {
        center_y - height / 2
    } else {
        0
    };
    Rect { x: corner_x, y: corner_y, width, height }
}

/// The one error of the front end.
#[derive(Debug, Clone, Copy, PartialEq, Eq, Structural)]
pub struct Error;

impl Error {
    /// What the error says.
    pub fn message(&self) -> (text: String)
        ensures
            text@ == "Error while sending event"@,
    {
        "Error while sending event".to_owned()
    }
}

/// A dialog of the front end: one that a backend asked for, or the prompt
/// for a command.
#[derive(Debug)]
pub enum Widget {
    Widget(InterfaceWidget),
    CommandPrompt,
}

impl Widget {
    /// Whether the dialog takes the keys typed while it is shown.
    pub open spec fn captures(&self) -> bool {
        match self {
            Widget::Widget(widget) => !(widget is Alert),
            Widget::CommandPrompt => true,
        }
    }

    /// Whether the dialog takes the keys typed while it is shown.
    pub fn captures_output(&self) -> (r: bool)
        ensures
            r == self.captures(),
    {
        match self {
            Widget::Widget(widget) => widget.captures_output(),
            Widget::CommandPrompt => true,
        }
    }
}

impl From<InterfaceWidget> for Widget {
    fn from(value: InterfaceWidget) -> (r: Widget)
        ensures
            r == Widget::Widget(value),
    {
        Widget::Widget(value)
    }
}

impl vstd::std_specs::convert::FromSpecImpl<InterfaceWidget> for Widget {
    open spec fn obeys_from_spec() -> bool {
        true
    }

    open spec fn from_spec(value: InterfaceWidget) -> Widget {
        Widget::Widget(value)
    }
}

/// What the orchestrator sends to the front end.
#[derive(Debug)]
pub enum Event {
    /// The state to show.
    Render(Box<State>),
    /// A dialog to show.
    Widget(Widget),
}

impl From<Widget> for Event {
    fn from(value: Widget) -> (r: Event)
        ensures
            r == Event::Widget(value),
    {
        Event::Widget(value)
    }
}

impl vstd::std_specs::convert::FromSpecImpl<Widget> for Event {
    open spec fn obeys_from_spec() -> bool {
        true
    }

    open spec fn from_spec(value: Widget) -> Event {
        Event::Widget(value)
    }
}

/// A dialog as it is drawn.
#[derive(Debug, Clone, PartialEq, Eq)]
pub struct RenderWidget {
    pub title: String,
    pub content: String,
    /// What has been typed into the dialog, if it takes text.
    pub prompt: Option<String>,
    /// The most lines that the dialog may take.
    pub max_height: Option<u16>,
}

impl RenderWidget {
    /// What is written in the dialog: its content, and below it what has
    /// been typed.
    pub open spec fn texts(&self) -> Seq<char> {
        match self.prompt {
            Some(prompt) => if self.content@.len() > 0 {
                self.content@ + seq!['\n'] + prompt@
            } else {
                prompt@
            },
            None => self.content@,
        }
    }

    /// What is written in the dialog.
    pub fn text(&self) -> (r: String)
        ensures
            r@ == self.texts(),
    {
        let mut text = self.content.clone();
        if let Some(prompt) = &self.prompt {
            if self.content.as_str().unicode_len() > 0 {
                proof {
                    reveal_strlit("\n");
                    assert("\n"@ =~= seq!['\n']);
                }
                text.append("\n");
            }
            text.append(prompt.as_str());
        }
        text
    }
}

/// How a dialog is drawn, with `prompt_string` as what has been typed so
/// far. Dialogs with boxes to tick are not drawn.
pub fn make_render_widget(widget: &Widget, prompt_string: &String) -> (r: Option<RenderWidget>)
    ensures
        match *widget {
            Widget::Widget(InterfaceWidget::Alert { title, content }) => {
                &&& r is Some
                &&& r->0.title@ == title@
                &&& r->0.content@ == content@
                &&& r->0.prompt is None
                &&& r->0.max_height is None
            },
            Widget::Widget(InterfaceWidget::PromptBox { title, content, .. }) => {
                &&& r is Some
                &&& r->0.title@ == title@
                &&& r->0.content@ == content@
                &&& r->0.prompt is Some
                &&& r->0.prompt->0@ == prompt_string@
                &&& r->0.max_height is None
            },
            Widget::Widget(_) => r is None,
            Widget::CommandPrompt => {
                &&& r is Some
                &&& r->0.title@ == "Command Prompt"@
                &&& r->0.content@ == Seq::<char>::empty()
                &&& r->0.prompt is Some
                &&& r->0.prompt->0@ == prompt_string@
                &&& r->0.max_height == Some(3u16)
            },
        },
{
    match widget {
        Widget::Widget(widget) => match widget {
            InterfaceWidget::Alert { title, content } => Some(
                RenderWidget {
                    title: title.clone(),
                    content: content.clone(),
                    prompt: None,
                    max_height: None,
                },
            ),
            InterfaceWidget::PromptBox { title, content, .. } => Some(
                RenderWidget {
                    title: title.clone(),
                    content: content.clone(),
                    prompt: Some(prompt_string.clone()),
                    max_height: None,
                },
            ),
            _ => None,
        },
        Widget::CommandPrompt => Some(
            RenderWidget {
                title: "Command Prompt".to_owned(),
                content: String::new(),
                prompt: Some(prompt_string.clone()),
                max_height: Some(3),
            },
        ),
    }
}

/// Appends `c` to `text`, with std's `String::push`.
#[verifier::external_body]
fn push_char(text: &mut String, c: char)
    ensures
        final(text)@ == old(text)@.push(c),
{
    text.push(c);
}

/// Removes the last character of `text`, if it has one, with std's
/// `String::pop`.
#[verifier::external_body]
fn pop_char(text: &mut String)
    ensures
        final(text)@ == if old(text)@.len() > 0 {
            old(text)@.drop_last()
        } else {
            old(text)@
        },
{
    let _ = text.pop();
}

/// A key of the keyboard, as far as the dialogs tell keys apart.
#[derive(Debug, Clone, Copy, PartialEq, Eq, Structural)]
pub enum Key {
    Char(char),
    Enter,
    Backspace,
    Esc,
    Left,
    Right,
    Other,
}

impl Key {
    /// Whether the dialogs have a use for the key.
    pub open spec fn edits(self) -> bool {
        self is Char || self is Enter || self is Backspace || self is Esc
    }
}

/// What the terminal reports.
#[derive(Debug)]
pub enum TermEvent {
    FocusGained,
    FocusLost,
    /// A key was pressed, or released. `bound` is the action that the
    /// configuration binds to the key, if it binds one.
    Key { key: Key, pressed: bool, bound: Option<Action> },
    ScrollDown,
    ScrollUp,
    /// Text was pasted.
    Paste(String),
    Other,
}

/// What the user has entered into a dialog.
#[derive(Debug)]
pub enum Reply {
    /// Nothing.
    Nothing,
    /// An answer for the backend that asked, to be sent through
    /// `backchannel`.
    Prompt { backchannel: tokio::sync::oneshot::Sender<String>, text: String },
    /// A command for the orchestrator.
    Command(String),
}

/// What the front end made of a report of the terminal.
#[derive(Debug)]
pub struct Outcome {
    /// The event to send to the orchestrator.
    pub event: Option<MyEvents>,
    /// What the user has entered into a dialog.
    pub reply: Reply,
}

/// The state of the front end.
#[derive(Debug)]
pub struct Tui {
    /// The dialogs that are open, the one on top last.
    pub widgets: Vec<Widget>,
    /// What has been typed into the dialog on top.
    pub prompt_string: String,
    /// The turns of the mouse wheel that have not been passed on yet: they
    /// are gathered into one move of the menu cursor.
    pub offset: isize,
}

impl Tui {
    /// A front end without dialogs.
    pub fn new() -> (r: Tui)
        ensures
            r.widgets@.len() == 0,
            r.prompt_string@.len() == 0,
            r.offset == 0,
    {
        Tui { widgets: Vec::new(), prompt_string: String::new(), offset: 0 }
    }

    /// Whether a dialog is open.
    pub fn in_prompt(&self) -> (r: bool)
        ensures
            r == (self.widgets@.len() > 0),
    {
        self.widgets.len() > 0
    }

    /// Takes in what the orchestrator sends: the state to draw is handed
    /// back, a dialog is put on top of the others.
    pub fn handle_event(&mut self, event: Event) -> (r: Option<Box<State>>)
        ensures
            final(self).prompt_string == old(self).prompt_string,
            final(self).offset == old(self).offset,
            match event {
                Event::Render(state) => r == Some(state) && final(self).widgets == old(self).widgets,
                Event::Widget(widget) => r is None && final(self).widgets@ == old(
                    self,
                ).widgets@.push(widget),
            },
    {
        match event {
            Event::Render(state) => Some(state),
            Event::Widget(widget) => {
                self.widgets.push(widget);
                None
            },
        }
    }

    /// The move of the menu cursor that the turns of the mouse wheel add up
    /// to, if they add up to any.
    pub fn pending_offset(&self) -> (r: Option<MenuCtrl>)
        ensures
            r == if self.offset != 0 {
                Some(MenuCtrl::Offset(self.offset))
            } else {
                None
            },
    {
        if self.offset != 0 {
            Some(MenuCtrl::Offset(self.offset))
        } else {
            None
        }
    }

    /// Takes note that the move of the menu cursor was passed on.
    pub fn offset_sent(&mut self)
        ensures
            final(self).offset == 0,
            final(self).widgets == old(self).widgets,
            final(self).prompt_string == old(self).prompt_string,
    {
        self.offset = 0;
    }

    /// Closes the dialog on top with what was typed into it: the answer to
    /// a prompt goes to the backend that asked, and a command goes to the
    /// orchestrator, after which the typed text is dropped.
    pub fn handle_widget_send(&mut self) -> (reply: Reply)
        ensures
            final(self).offset == old(self).offset,
            old(self).widgets@.len() == 0 ==> reply is Nothing && final(self).widgets@ == old(
                self,
            ).widgets@ && final(self).prompt_string == old(self).prompt_string,
            old(self).widgets@.len() > 0 ==> final(self).sent(old(self), reply),
    {
        match self.widgets.pop() {
            Some(Widget::Widget(widget)) => match widget {
                InterfaceWidget::PromptBox { title: _, content: _, backchannel } => Reply::Prompt {
                    backchannel,
                    text: self.prompt_string.clone(),
                },
                _ => Reply::Nothing,
            },
            Some(Widget::CommandPrompt) => {
                let text = self.prompt_string.clone();
                self.prompt_string = String::new();
                Reply::Command(text)
            },
            None => Reply::Nothing,
        }
    }

    /// `self` and `reply` are what closing the dialog on top, with what
    /// was typed into it, makes of `before`.
    pub open spec fn sent(&self, before: &Tui, reply: Reply) -> bool
        recommends
            before.widgets@.len() > 0,
    {
        &&& self.offset == before.offset
        &&& self.widgets@ == before.widgets@.drop_last()
        &&& match before.widgets@.last() {
            Widget::Widget(InterfaceWidget::PromptBox { backchannel, .. }) => {
                &&& reply matches Reply::Prompt { backchannel: channel, text }
                &&& channel == backchannel
                &&& text@ == before.prompt_string@
                &&& self.prompt_string == before.prompt_string
            },
            Widget::Widget(_) => {
                &&& reply is Nothing
                &&& self.prompt_string == before.prompt_string
            },
            Widget::CommandPrompt => {
                &&& reply matches Reply::Command(text)
                &&& text@ == before.prompt_string@
                &&& self.prompt_string@ == Seq::<char>::empty()
            },
        }
    }

    /// `self` and `reply` are what a key makes of `before`, in which a
    /// dialog is open.
    pub open spec fn keyed(&self, before: &Tui, key: Key, pressed: bool, reply: Reply) -> bool
        recommends
            before.widgets@.len() > 0,
    {
        if !pressed || !key.edits() {
            reply is Nothing && *self == *before
        } else {
            match key {
                Key::Char(c) => {
                    &&& reply is Nothing
                    &&& self.offset == before.offset
                    &&& self.widgets == before.widgets
                    &&& self.prompt_string@ == if before.widgets@.last().captures() {
                        before.prompt_string@.push(c)
                    } else {
                        before.prompt_string@
                    }
                },
                Key::Backspace => {
                    &&& reply is Nothing
                    &&& self.offset == before.offset
                    &&& self.widgets == before.widgets
                    &&& self.prompt_string@ == if before.widgets@.last().captures()
                        && before.prompt_string@.len() > 0 {
                        before.prompt_string@.drop_last()
                    } else {
                        before.prompt_string@
                    }
                },
                Key::Esc => {
                    &&& reply is Nothing
                    &&& self.offset == before.offset
                    &&& self.widgets@ == before.widgets@.drop_last()
                    &&& self.prompt_string@ == Seq::<char>::empty()
                },
                _ => self.sent(before, reply),
            }
        }
    }

    /// What a key does to the dialog on top. A character is added to the
    /// typed text and the backspace key removes the last one, if the dialog
    /// takes text; the enter key closes the dialog with the typed text; the
    /// escape key closes it and drops the typed text.
    pub fn widget_event(&mut self, key: Key, pressed: bool) -> (reply: Reply)
        requires
            old(self).widgets@.len() > 0,
        ensures
            final(self).keyed(old(self), key, pressed, reply),
    {
        if !pressed {
            return Reply::Nothing;
        }
        let last: usize = self.widgets.len() - 1;
        match key {
            Key::Char(c) => {
                if self.widgets[last].captures_output() {
                    push_char(&mut self.prompt_string, c);
                }
                Reply::Nothing
            },
            Key::Enter => self.handle_widget_send(),
            Key::Backspace => {
                if self.widgets[last].captures_output() {
                    pop_char(&mut self.prompt_string);
                }
                Reply::Nothing
            },
            Key::Esc => {
                let _ = self.widgets.pop();
                self.prompt_string = String::new();
                Reply::Nothing
            },
            _ => Reply::Nothing,
        }
    }

    /// The count of wheel turns after one more turn, which stays where it
    /// is at the ends of its range.
    pub open spec fn turned(offset: isize, up: bool) -> isize {
        if up {
            if offset < isize::MAX {
                (offset + 1) as isize
            } else {
                offset
            }
        } else {
            if offset > isize::MIN {
                (offset - 1) as isize
            } else {
                offset
            }
        }
    }

    /// What the front end makes of a report of the terminal.
    ///
    /// - Gaining and losing the focus is passed on to the orchestrator.
    /// - A key goes to the dialog on top, if one is open; otherwise a key
    ///   that is pressed gives the action that is bound to it.
    /// - A turn of the mouse wheel is counted.
    /// - Pasted text is added to what was typed, if a dialog is open.
    pub fn handle_tui_event(&mut self, event: TermEvent) -> (r: Outcome)
        ensures
            match event {
                TermEvent::FocusGained => {
                    &&& *final(self) == *old(self)
                    &&& r.event == Some(MyEvents::Action(Action::PauseRender(false)))
                    &&& r.reply is Nothing
                },
                TermEvent::FocusLost => {
                    &&& *final(self) == *old(self)
                    &&& r.event == Some(MyEvents::Action(Action::PauseRender(true)))
                    &&& r.reply is Nothing
                },
                TermEvent::Key { key, pressed, bound } => if old(self).widgets@.len() > 0 {
                    &&& r.event is None
                    &&& final(self).keyed(old(self), key, pressed, r.reply)
                } else {
                    &&& *final(self) == *old(self)
                    &&& r.reply is Nothing
                    &&& r.event == if pressed {
                        match bound {
                            Some(action) => Some(MyEvents::Action(action)),
                            None => None,
                        }
                    } else {
                        None
                    }
                },
                TermEvent::ScrollDown => {
                    &&& r.event is None
                    &&& r.reply is Nothing
                    &&& final(self).offset == Tui::turned(old(self).offset, false)
                    &&& final(self).widgets == old(self).widgets
                    &&& final(self).prompt_string == old(self).prompt_string
                },
                TermEvent::ScrollUp => {
                    &&& r.event is None
                    &&& r.reply is Nothing
                    &&& final(self).offset == Tui::turned(old(self).offset, true)
                    &&& final(self).widgets == old(self).widgets
                    &&& final(self).prompt_string == old(self).prompt_string
                },
                TermEvent::Paste(text) => {
                    &&& r.event is None
                    &&& r.reply is Nothing
                    &&& final(self).offset == old(self).offset
                    &&& final(self).widgets == old(self).widgets
                    &&& final(self).prompt_string@ == if old(self).widgets@.len() > 0 {
                        old(self).prompt_string@ + text@
                    } else {
                        old(self).prompt_string@
                    }
                },
                TermEvent::Other => {
                    &&& *final(self) == *old(self)
                    &&& r.event is None
                    &&& r.reply is Nothing
                },
            },
    {
        match event {
            TermEvent::FocusGained => Outcome {
                event: Some(MyEvents::Action(Action::PauseRender(false))),
                reply: Reply::Nothing,
            },
            TermEvent::FocusLost => Outcome {
                event: Some(MyEvents::Action(Action::PauseRender(true))),
                reply: Reply::Nothing,
            },
            TermEvent::Key { key, pressed, bound } => {
                if self.widgets.len() > 0 {
                    let reply = self.widget_event(key, pressed);
                    Outcome { event: None, reply }
                } else if pressed {
                    match bound {
                        Some(action) => Outcome {
                            event: Some(MyEvents::Action(action)),
                            reply: Reply::Nothing,
                        },
                        None => Outcome { event: None, reply: Reply::Nothing },
                    }
                } else {
                    Outcome { event: None, reply: Reply::Nothing }
                }
            },
            TermEvent::ScrollDown => {
                if self.offset > isize::MIN {
                    self.offset = self.offset - 1;
                }
                Outcome { event: None, reply: Reply::Nothing }
            },
            TermEvent::ScrollUp => {
                if self.offset < isize::MAX {
                    self.offset = self.offset + 1;
                }
                Outcome { event: None, reply: Reply::Nothing }
            },
            TermEvent::Paste(text) => {
                if self.in_prompt() {
                    self.prompt_string.append(text.as_str());
                }
                Outcome { event: None, reply: Reply::Nothing }
            },
            TermEvent::Other => Outcome { event: None, reply: Reply::Nothing },
        }
    }
}

} // verus!
