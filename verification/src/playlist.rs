//! The track list of a player: the tracks, the order in which they are
//! played, and the cursor into that order.
use crate::protocol::{PlaylistInfo, PlaylistInfoView, SongInfo, SongInfoView};
use rand::seq::SliceRandom;
use vstd::prelude::*;

verus! {

/// The play order that visits the tracks as they are listed: 0, 1, .., n-1.
pub open spec fn identity_order(n: nat) -> Seq<usize> {
    Seq::new(n, |i: int| i as usize)
}

/// `order` visits each of `n` tracks exactly once.
pub open spec fn is_play_order(order: Seq<usize>, n: nat) -> bool {
    &&& order.len() == n
    &&& forall|i: int| 0 <= i < order.len() ==> (#[trigger] order[i]) < n
    &&& order.no_duplicates()
}

/// An order with the same entries as a play order, each as often, is a play
/// order too.
pub proof fn lemma_rearranged_play_order(before: Seq<usize>, after: Seq<usize>, n: nat)
    requires
        is_play_order(before, n),
        after.to_multiset() == before.to_multiset(),
    ensures
        is_play_order(after, n),
{
    before.to_multiset_ensures();
    after.to_multiset_ensures();
    before.lemma_multiset_has_no_duplicates();
    after.lemma_multiset_has_no_duplicates_conv();
    assert forall|i: int| 0 <= i < after.len() implies (#[trigger] after[i]) < n by {
        assert(after.contains(after[i]));
        assert(after.to_multiset().count(after[i]) > 0);
        assert(before.to_multiset().count(after[i]) > 0);
        assert(before.contains(after[i]));
    }
}

/// The identity order is a play order.
pub proof fn lemma_identity_is_play_order(n: nat)
    requires
        n <= usize::MAX,
    ensures
        is_play_order(identity_order(n), n),
{
}

/// Whether `order` visits each of `n` tracks exactly once.
pub fn is_order(order: &Vec<usize>, n: usize) -> (r: bool)
    ensures
        r == is_play_order(order@, n as nat),
{
    if order.len() != n {
        return false;
    }
    let mut i: usize = 0;
    while i < n
        invariant
            i <= n,
            n == order@.len(),
            forall|a: int| 0 <= a < i ==> (#[trigger] order@[a]) < n,
            forall|a: int, b: int| 0 <= a < i && 0 <= b < i && a != b ==> order@[a] != order@[b],
        decreases n - i,
    {
        if order[i] >= n {
            assert(!(order@[i as int] < n));
            return false;
        }
        let mut j: usize = 0;
        while j < i
            invariant
                j <= i < n,
                n == order@.len(),
                forall|b: int| 0 <= b < j ==> order@[b] != order@[i as int],
            decreases i - j,
        {
            if order[j] == order[i] {
                assert(order@[j as int] == order@[i as int]);
                return false;
            }
            j += 1;
        }
        i += 1;
    }
    true
}

/// Builds the order 0, 1, .., n-1.
fn make_identity(n: usize) -> (order: Vec<usize>)
    ensures
        order@ == identity_order(n as nat),
{
    let mut order: Vec<usize> = Vec::new();
    let mut i: usize = 0;
    while i < n
        invariant
            i <= n,
            order@.len() == i,
            forall|k: int| 0 <= k < i ==> order@[k] == k,
        decreases n - i,
    {
        order.push(i);
        i += 1;
    }
    assert(order@ =~= identity_order(n as nat));
    order
}

/// Rearranges `order` at random, with rand's `SliceRandom::shuffle` on the
/// generator of the calling thread. The shuffle only swaps entries, so the
/// contract claims that every entry is kept, each as often as before; which
/// arrangement comes out is left open.
#[verifier::external_body]
fn shuffle_order(order: &mut Vec<usize>)
    ensures
        final(order)@.to_multiset() == old(order)@.to_multiset(),
{
    order.shuffle(&mut rand::thread_rng());
}

/// The cursor one step further, stopping at the last of `count` positions.
pub open spec fn stepped_forward(cursor: Option<usize>, count: nat) -> Option<usize> {
    match cursor {
        Some(c) => Some(
            if c + 1 < count {
                (c + 1) as usize
            } else {
                c
            },
        ),
        None => None,
    }
}

/// The cursor one step back, stopping at the first position.
pub open spec fn stepped_back(cursor: Option<usize>) -> Option<usize> {
    match cursor {
        Some(c) => Some(
            if c > 0 {
                (c - 1) as usize
            } else {
                0usize
            },
        ),
        None => None,
    }
}

/// The track list of a player. Either nothing is loaded, or a playlist with
/// at least one track is, together with a play order over its tracks and a
/// cursor into that order.
pub struct PlaylistHandler {
    /// The tracks.
    playlist: Option<PlaylistInfo>,
    /// The order in which the tracks are played.
    indices: Option<Vec<usize>>,
    /// Position in `indices` of the current track.
    current: Option<usize>,
}

impl PlaylistHandler {
    /// Whether a playlist is loaded.
    pub closed spec fn loaded(&self) -> bool {
        self.playlist is Some
    }

    /// The loaded playlist.
    pub closed spec fn tracklist(&self) -> PlaylistInfoView
        recommends
            self.loaded(),
    {
        self.playlist->0@
    }

    /// The number of tracks loaded; 0 when nothing is.
    pub closed spec fn count(&self) -> nat {
        match self.playlist {
            Some(p) => p.songs@.len(),
            None => 0,
        }
    }

    /// The play order; empty when nothing is loaded.
    pub closed spec fn order(&self) -> Seq<usize> {
        match self.indices {
            Some(indices) => indices@,
            None => Seq::empty(),
        }
    }

    /// The cursor into the play order.
    pub closed spec fn cursor(&self) -> Option<usize> {
        self.current
    }

    /// The invariant of the type.
    pub closed spec fn well_formed(&self) -> bool {
        match self.playlist {
            None => self.indices is None && self.current is None,
            Some(p) => {
                &&& p.songs@.len() > 0
                &&& self.indices is Some
                &&& is_play_order(self.indices->0@, p.songs@.len())
                &&& self.current is Some
                &&& self.current->0 < p.songs@.len()
            },
        }
    }

    /// Whether the invariant of the type holds.
    pub fn is_well_formed(&self) -> (r: bool)
        ensures
            r == self.well_formed(),
    {
        match &self.playlist {
            None => self.indices.is_none() && self.current.is_none(),
            Some(playlist) => {
                let n: usize = playlist.songs.len();
                let current_fits: bool = match self.current {
                    Some(c) => c < n,
                    None => false,
                };
                match &self.indices {
                    None => false,
                    Some(indices) => n > 0 && current_fits && is_order(indices, n),
                }
            },
        }
    }

    /// What the invariant says in terms of the model.
    pub proof fn lemma_well_formed(&self)
        requires
            self.well_formed(),
        ensures
            self.loaded() <==> self.cursor() is Some,
            self.loaded() <==> self.count() > 0,
            self.loaded() ==> self.tracklist().songs.len() == self.count(),
            is_play_order(self.order(), self.count()),
            self.cursor() is Some ==> self.cursor()->0 < self.count(),
    {
    }

    /// Whether `self` holds the tracks that `other` holds.
    pub open spec fn same_tracks(&self, other: &PlaylistHandler) -> bool {
        &&& self.loaded() == other.loaded()
        &&& self.count() == other.count()
        &&& self.loaded() ==> self.tracklist() == other.tracklist()
    }

    /// The track under the cursor.
    pub open spec fn current_song_view(&self) -> SongInfoView
        recommends
            self.loaded(),
    {
        self.tracklist().songs[self.current_index()->0 as int]
    }

    /// The index, in the playlist, of the track under the cursor.
    pub open spec fn current_index(&self) -> Option<usize> {
        match self.cursor() {
            Some(c) => Some(self.order()[c as int]),
            None => None,
        }
    }

    /// A handler with nothing loaded.
    pub fn new() -> (r: PlaylistHandler)
        ensures
            r.well_formed(),
            !r.loaded(),
            r.cursor() is None,
            r.order() == Seq::<usize>::empty(),
            r.count() == 0,
    {
        PlaylistHandler { playlist: None, indices: None, current: None }
    }

    /// Whether a playlist is loaded.
    pub fn is_some(&self) -> (r: bool)
        ensures
            r == self.loaded(),
    {
        self.playlist.is_some()
    }

    /// Loads `playlist`, in listed order and with the cursor on its first
    /// track. A playlist without tracks is ignored.
    pub fn set_playlist(&mut self, playlist: PlaylistInfo)
        requires
            old(self).well_formed(),
        ensures
            final(self).well_formed(),
            playlist.songs@.len() == 0 ==> *final(self) == *old(self),
            playlist.songs@.len() > 0 ==> {
                &&& final(self).loaded()
                &&& final(self).tracklist() == playlist@
                &&& final(self).count() == playlist.songs@.len()
                &&& final(self).order() == identity_order(playlist.songs@.len())
                &&& final(self).cursor() == Some(0usize)
            },
    {
        let n: usize = playlist.songs.len();
        if n == 0 {
            return ;
        }
        proof {
            lemma_identity_is_play_order(n as nat);
        }
        self.indices = Some(make_identity(n));
        self.playlist = Some(playlist);
        self.current = Some(0);
    }

    /// Rearranges the play order at random. The tracks and the cursor stay.
    pub fn shuffle(&mut self)
        requires
            old(self).well_formed(),
        ensures
            final(self).well_formed(),
            final(self).same_tracks(old(self)),
            final(self).cursor() == old(self).cursor(),
            final(self).order().to_multiset() == old(self).order().to_multiset(),
            is_play_order(final(self).order(), final(self).count()),
    {
        match self.indices.take() {
            Some(mut indices) => {
                let ghost before = indices@;
                shuffle_order(&mut indices);
                proof {
                    lemma_rearranged_play_order(before, indices@, self.count());
                }
                self.indices = Some(indices);
            },
            None => {},
        }
    }

    /// Restores the listed order. The tracks and the cursor stay.
    pub fn unshuffle(&mut self)
        requires
            old(self).well_formed(),
        ensures
            final(self).well_formed(),
            final(self).same_tracks(old(self)),
            final(self).cursor() == old(self).cursor(),
            final(self).order() == identity_order(old(self).count()),
    {
        match &self.playlist {
            Some(playlist) => {
                let n: usize = playlist.songs.len();
                proof {
                    lemma_identity_is_play_order(n as nat);
                }
                self.indices = Some(make_identity(n));
            },
            None => {
                assert(self.order() =~= identity_order(0));
            },
        }
    }

    /// Moves the cursor one step forward, stopping at the last position.
    pub fn next(&mut self)
        requires
            old(self).well_formed(),
        ensures
            final(self).well_formed(),
            final(self).same_tracks(old(self)),
            final(self).order() == old(self).order(),
            final(self).cursor() == stepped_forward(old(self).cursor(), old(self).count()),
    {
        if let Some(indices) = &self.indices {
            if let Some(current) = self.current {
                let last: usize = indices.len() - 1;
                self.current = Some(if current + 1 < last { current + 1 } else { last });
            }
        }
    }

    /// Moves the cursor one step back, stopping at the first position.
    pub fn prev(&mut self)
        requires
            old(self).well_formed(),
        ensures
            final(self).well_formed(),
            final(self).same_tracks(old(self)),
            final(self).order() == old(self).order(),
            final(self).cursor() == stepped_back(old(self).cursor()),
    {
        if self.indices.is_some() {
            if let Some(current) = self.current {
                if current > 0 {
                    self.current = Some(current - 1);
                }
            }
        }
    }

    /// Puts the cursor back on the first position of the play order.
    pub fn rewind(&mut self)
        requires
            old(self).well_formed(),
        ensures
            final(self).well_formed(),
            final(self).same_tracks(old(self)),
            final(self).order() == old(self).order(),
            final(self).cursor() == if old(self).loaded() {
                Some(0usize)
            } else {
                None
            },
    {
        if self.playlist.is_some() {
            self.current = Some(0);
        }
    }

    /// Whether the cursor is on the last position. `false` when nothing is
    /// loaded.
    pub fn is_at_end(&self) -> (r: bool)
        requires
            self.well_formed(),
        ensures
            r == (self.cursor() is Some && self.cursor()->0 + 1 == self.count()),
    {
        match (self.current, &self.playlist) {
            (Some(current), Some(playlist)) => current == playlist.songs.len() - 1,
            _ => false,
        }
    }

    /// The track under the cursor.
    pub fn current_song(&self) -> (r: Option<SongInfo>)
        requires
            self.well_formed(),
        ensures
            r is Some == self.loaded(),
            r is Some ==> r->0@ == self.current_song_view(),
    {
        match (&self.playlist, &self.indices, self.current) {
            (Some(playlist), Some(indices), Some(current)) => {
                Some(playlist.songs[indices[current]].clone())
            },
            _ => None,
        }
    }

    /// The index, in the playlist, of the track under the cursor.
    pub fn get_current(&self) -> (r: Option<usize>)
        requires
            self.well_formed(),
        ensures
            r == self.current_index(),
            r is Some == self.loaded(),
            r is Some ==> r->0 < self.count(),
    {
        match (&self.current, &self.indices) {
            (Some(current), Some(indices)) => Some(indices[*current]),
            _ => None,
        }
    }

    /// The position of the cursor in the play order.
    pub fn position(&self) -> (r: Option<usize>)
        ensures
            r == self.cursor(),
    {
        self.current
    }

    /// The play order; empty when nothing is loaded.
    pub fn play_order(&self) -> (r: Vec<usize>)
        ensures
            r@ == self.order(),
    {
        match &self.indices {
            Some(indices) => {
                let mut out: Vec<usize> = Vec::new();
                let mut i: usize = 0;
                while i < indices.len()
                    invariant
                        i <= indices.len(),
                        out@.len() == i,
                        forall|k: int| 0 <= k < i ==> out@[k] == indices@[k],
                    decreases indices.len() - i,
                {
                    out.push(indices[i]);
                    i += 1;
                }
                assert(out@ =~= indices@);
                out
            },
            None => Vec::new(),
        }
    }

    /// The loaded playlist, or the empty one when nothing is loaded.
    pub fn tracks(&self) -> (r: PlaylistInfo)
        ensures
            r@ == if self.loaded() {
                self.tracklist()
            } else {
                PlaylistInfo::empty_view()
            },
    {
        match &self.playlist {
            Some(playlist) => playlist.clone(),
            None => PlaylistInfo::default(),
        }
    }
}

} // verus!
