//! Lists of playlists, in which a playlist is known by its id.
use crate::protocol::{playlists_view, PlaylistInfo, PlaylistInfoView};
use vstd::prelude::*;

verus! {

/// Some playlist of `lists` has the id `id`.
pub open spec fn has_id(lists: Seq<PlaylistInfoView>, id: Seq<char>) -> bool {
    exists|i: int| 0 <= i < lists.len() && (#[trigger] lists[i]).id == id
}

/// The playlist at `i` is the first of `lists` with the id `id`.
pub open spec fn is_first_with_id(lists: Seq<PlaylistInfoView>, id: Seq<char>, i: int) -> bool {
    &&& 0 <= i < lists.len()
    &&& lists[i].id == id
    &&& forall|j: int| 0 <= j < i ==> (#[trigger] lists[j]).id != id
}

/// `after` is `before` with `playlist` merged in: it takes the place of the
/// first playlist of the same id, or is added at the end where there is none.
pub open spec fn upserted(
    before: Seq<PlaylistInfoView>,
    playlist: PlaylistInfoView,
    after: Seq<PlaylistInfoView>,
) -> bool {
    &&& has_id(before, playlist.id) ==> exists|i: int|
        #![auto]
        is_first_with_id(before, playlist.id, i) && after == before.update(i, playlist)
    &&& !has_id(before, playlist.id) ==> after == before.push(playlist)
}

/// The index of the first playlist of `lists` with the id `id`.
pub fn find_playlist(lists: &Vec<PlaylistInfo>, id: &String) -> (r: Option<usize>)
    ensures
        match r {
            Some(i) => is_first_with_id(playlists_view(lists@), id@, i as int),
            None => !has_id(playlists_view(lists@), id@),
        },
{
    let mut i: usize = 0;
    while i < lists.len()
        invariant
            i <= lists@.len(),
            forall|j: int| 0 <= j < i ==> (#[trigger] playlists_view(lists@)[j]).id != id@,
        decreases lists@.len() - i,
    {
        if lists[i].id == *id {
            return Some(i);
        }
        i += 1;
    }
    None
}

/// Merges `playlist` into `lists`: it takes the place of the first playlist
/// of the same id, or is added at the end where there is none.
pub fn upsert(lists: &mut Vec<PlaylistInfo>, playlist: PlaylistInfo)
    ensures
        upserted(playlists_view(old(lists)@), playlist@, playlists_view(final(lists)@)),
{
    let ghost before = playlists_view(lists@);
    match find_playlist(lists, &playlist.id) {
        Some(index) => {
            lists.set(index, playlist);
            assert(playlists_view(lists@) =~= before.update(index as int, playlist@));
        },
        None => {
            lists.push(playlist);
            assert(playlists_view(lists@) =~= before.push(playlist@));
        },
    }
}

} // verus!
