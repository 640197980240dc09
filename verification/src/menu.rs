//! The selection within a list, and the moves of the menu cursor.
use crate::protocol::{PlaylistInfo, SongInfo};
use crate::text::texts_view;
use vstd::prelude::*;

verus! {

/// The level of the menu that has the focus.
#[derive(Debug, Clone, Copy, PartialEq, Eq, Structural)]
pub enum Menu {
    Client,
    Playlist,
    Song,
}

impl Default for Menu {
    fn default() -> (r: Menu)
        ensures
            r == Menu::Client,
    {
        Menu::Client
    }
}

impl Menu {
    /// The level entered from `self`: the last level leads nowhere further.
    pub open spec fn entered(self) -> Menu {
        match self {
            Menu::Client => Menu::Playlist,
            Menu::Playlist => Menu::Song,
            Menu::Song => Menu::Song,
        }
    }

    /// The level left for from `self`: the first level leads nowhere back.
    pub open spec fn left(self) -> Menu {
        match self {
            Menu::Client => Menu::Client,
            Menu::Playlist => Menu::Client,
            Menu::Song => Menu::Playlist,
        }
    }

    /// The level entered from `self`.
    pub fn next(self) -> (r: Menu)
        ensures
            r == self.entered(),
    {
        match self {
            Menu::Client => Menu::Playlist,
            Menu::Playlist => Menu::Song,
            Menu::Song => Menu::Song,
        }
    }

    /// The level left for from `self`.
    pub fn prev(self) -> (r: Menu)
        ensures
            r == self.left(),
    {
        match self {
            Menu::Client => Menu::Client,
            Menu::Playlist => Menu::Client,
            Menu::Song => Menu::Playlist,
        }
    }
}

/// A move of the menu cursor.
#[derive(Debug, Clone, Copy, PartialEq, Eq, Structural)]
pub enum MenuCtrl {
    Next,
    Prev,
    NextMenu,
    PrevMenu,
    Offset(isize),
}

/// `select` is no entry, or one of `len` entries.
pub open spec fn selection_in_range(select: Option<usize>, len: nat) -> bool {
    match select {
        Some(i) => i < len,
        None => true,
    }
}

/// The selection reached from `select` by `off` steps in a list of `len`
/// entries. An empty list has no selection. An existing selection moves and
/// stops at the first and at the last entry. Without a selection, `off` is an
/// index: it is selected if the list has it, and nothing is otherwise.
pub open spec fn offset_select(select: Option<usize>, off: int, len: nat) -> Option<usize> {
    if len == 0 {
        None
    } else {
        match select {
            None => if 0 <= off < len {
                Some(off as usize)
            } else {
                None
            },
            Some(s) => Some(
                if s + off < 0 {
                    0usize
                } else if s + off >= len {
                    (len - 1) as usize
                } else {
                    (s + off) as usize
                },
            ),
        }
    }
}

/// Whatever the selection was and however far it is moved, it ends on an
/// entry of the list, or is none where the list is empty.
pub proof fn lemma_offset_select_in_range(select: Option<usize>, off: int, len: nat)
    requires
        len <= usize::MAX,
    ensures
        selection_in_range(offset_select(select, off, len), len),
        len == 0 ==> offset_select(select, off, len) is None,
        len > 0 && select is Some ==> offset_select(select, off, len) is Some,
{
}

/// A list of entries, one of which may be selected.
#[derive(Debug)]
pub struct ListHolder<T> {
    pub entries: Vec<T>,
    pub select: Option<usize>,
}

impl<T> ListHolder<T> {
    /// The selection is an entry of the list.
    pub open spec fn well_formed(&self) -> bool {
        selection_in_range(self.select, self.entries@.len())
    }

    /// An empty list.
    pub fn new() -> (r: ListHolder<T>)
        ensures
            r.entries@.len() == 0,
            r.select is None,
            r.well_formed(),
    {
        ListHolder { entries: Vec::new(), select: None }
    }

    /// Sets the selection, which the caller vouches for.
    pub fn select(&mut self, select: Option<usize>)
        ensures
            final(self).select == select,
            final(self).entries == old(self).entries,
    {
        self.select = select;
    }

    /// Moves the selection by `off` entries.
    pub fn offset(&mut self, off: isize)
        ensures
            final(self).entries == old(self).entries,
            final(self).select == offset_select(
                old(self).select,
                off as int,
                old(self).entries@.len(),
            ),
            final(self).well_formed(),
    {
        let len: usize = self.entries.len();
        if len == 0 {
            self.select = None;
            return ;
        }
        match self.select {
            None => {
                if off >= 0 && (off as i128) < (len as i128) {
                    self.select = Some(off as usize);
                }
            },
            Some(s) => {
                let moved: i128 = s as i128 + off as i128;
                self.select = Some(
                    if moved < 0 {
                        0
                    } else if moved >= len as i128 {
                        len - 1
                    } else {
                        moved as usize
                    },
                );
            },
        }
    }

    /// The selected entry.
    pub fn get_selected(&self) -> (r: Option<&T>)
        requires
            self.well_formed(),
        ensures
            r == match self.select {
                Some(i) => Some(&self.entries@[i as int]),
                None => None,
            },
    {
        match self.select {
            Some(i) => Some(&self.entries[i]),
            None => None,
        }
    }
}

/// A list that can be shown as lines of text.
pub trait ListHolderToString {
    /// The line shown for each entry.
    spec fn lines(&self) -> Seq<Seq<char>>;

    /// The line shown for each entry.
    fn get_strings(&self) -> (r: Vec<String>)
        ensures
            texts_view(r@) == self.lines(),
    ;
}

impl ListHolderToString for ListHolder<String> {
    open spec fn lines(&self) -> Seq<Seq<char>> {
        texts_view(self.entries@)
    }

    fn get_strings(&self) -> (r: Vec<String>) {
        let mut out: Vec<String> = Vec::new();
        let mut i: usize = 0;
        while i < self.entries.len()
            invariant
                i <= self.entries@.len(),
                out@.len() == i,
                forall|k: int| 0 <= k < i ==> out@[k]@ == self.entries@[k]@,
            decreases self.entries@.len() - i,
        {
            out.push(self.entries[i].clone());
            i += 1;
        }
        assert(texts_view(out@) =~= self.lines());
        out
    }
}

impl ListHolderToString for ListHolder<PlaylistInfo> {
    open spec fn lines(&self) -> Seq<Seq<char>> {
        Seq::new(self.entries@.len(), |i: int| self.entries@[i].title@)
    }

    fn get_strings(&self) -> (r: Vec<String>) {
        let mut out: Vec<String> = Vec::new();
        let mut i: usize = 0;
        while i < self.entries.len()
            invariant
                i <= self.entries@.len(),
                out@.len() == i,
                forall|k: int| 0 <= k < i ==> out@[k]@ == self.entries@[k].title@,
            decreases self.entries@.len() - i,
        {
            out.push(self.entries[i].title.clone());
            i += 1;
        }
        assert(texts_view(out@) =~= self.lines());
        out
    }
}

impl ListHolderToString for ListHolder<SongInfo> {
    open spec fn lines(&self) -> Seq<Seq<char>> {
        Seq::new(self.entries@.len(), |i: int| self.entries@[i].title@)
    }

    fn get_strings(&self) -> (r: Vec<String>) {
        let mut out: Vec<String> = Vec::new();
        let mut i: usize = 0;
        while i < self.entries.len()
            invariant
                i <= self.entries@.len(),
                out@.len() == i,
                forall|k: int| 0 <= k < i ==> out@[k]@ == self.entries@[k].title@,
            decreases self.entries@.len() - i,
        {
            out.push(self.entries[i].title.clone());
            i += 1;
        }
        assert(texts_view(out@) =~= self.lines());
        out
    }
}

/// The position reached from `start` by `offset` steps among `max`
/// positions. Without positions there is none; without a start it is the
/// first; otherwise the move stops at the first and at the last position.
pub open spec fn clamped(start: Option<usize>, offset: int, max: nat) -> Option<usize> {
    if max == 0 {
        None
    } else {
        match start {
            None => Some(0usize),
            Some(s) => Some(
                if s + offset < 0 {
                    0usize
                } else if s + offset < max {
                    (s + offset) as usize
                } else {
                    (max - 1) as usize
                },
            ),
        }
    }
}

/// The position reached from `start` by `offset` steps among `max` positions.
pub fn clamp(start: Option<usize>, offset: i64, max: usize) -> (r: Option<usize>)
    ensures
        r == clamped(start, offset as int, max as nat),
        selection_in_range(r, max as nat),
{
    if max == 0 {
        return None;
    }
    match start {
        None => Some(0),
        Some(s) => {
            let res: i128 = s as i128 + offset as i128;
            if res < 0 {
                Some(0)
            } else if res < max as i128 {
                Some(res as usize)
            } else {
                Some(max - 1)
            }
        },
    }
}

} // verus!
