//! Saving, reading, listing and deleting playlists.

use vstd::prelude::*;

use crate::catalog::GetSongs;
use crate::error::APIError;
use crate::laws::lists::{law_successes_keep_their_order, places_of};
use crate::playlists::{
    delete_playlist, get_playlist, get_playlists, put_playlist, send_playlist, DeletePlaylist,
    ListPlaylists, ListingPlaylist, Playlist, PutPlaylist, ReadPlaylist, SavePlaylist,
    StoredPlaylist,
};
use crate::step::Step;
use crate::users::Auth;
use crate::version::APIMajorVersion;

verus! {

/// Whoever lists, reads or deletes playlists is given their own, under the name
/// they ask for.
pub proof fn law_playlists_are_ones_own(
    auth: Auth,
    name: String,
    list: ListPlaylists,
    read: ReadPlaylist,
    delete: DeletePlaylist,
)
    requires
        call_ensures(get_playlists, (&auth,), list),
        call_ensures(get_playlist, (&auth, name), read),
        call_ensures(delete_playlist, (&auth, name), delete),
    ensures
        list.owner@ == auth.username@,
        read.owner@ == auth.username@,
        read.name@ == name@,
        delete.owner@ == auth.username@,
        delete.name@ == name@,
{
}

/// A playlist is saved for the account that asks, under the name it gives. All
/// of its tracks are looked up, and the songs that were found are saved, all of
/// them, in the order of the tracks.
pub proof fn law_found_tracks_are_saved_in_order<P, T, E>(
    auth: Auth,
    name: String,
    tracks: Vec<P>,
    start: (GetSongs<P>, PutPlaylist),
    found: Vec<Result<T, E>>,
    call: SavePlaylist<T>,
) -> (places: Seq<int>)
    requires
        call_ensures(put_playlist::<P>, (&auth, name, tracks), start),
        call_ensures(PutPlaylist::resume::<T, E>, (start.1, found), call),
    ensures
        start.0.paths@ == tracks@,
        call.owner@ == auth.username@,
        call.name@ == name@,
        places_of(places, found@, |r: Result<T, E>| r is Ok),
        call.songs@.len() == places.len(),
        forall|k: int|
            0 <= k < places.len() ==> found@[#[trigger] places[k]] == Ok::<T, E>(call.songs@[k]),
{
    law_successes_keep_their_order(found@)
}

/// Of a stored playlist, version 7 is sent all paths at once; for version 8 the
/// first 200 are looked up, or all where there are fewer. A playlist that could
/// not be read is refused by the error of the manager.
pub proof fn law_first_tracks_are_looked_up<H, P: Clone, E>(
    playlist: Result<StoredPlaylist<H, P>, E>,
    api_version: APIMajorVersion,
    step: Step<GetSongs<P>, ListingPlaylist<H, P>, Result<Vec<P>, APIError<E>>>,
)
    requires
        call_ensures(send_playlist::<H, P, E>, (playlist, api_version), step),
    ensures
        match (playlist, api_version) {
            (Err(e), _) => step matches Step::Reply(Err(error)) && error == APIError::Manager(e),
            (Ok(p), APIMajorVersion::V7) => step matches Step::Reply(Ok(paths)) && paths@
                == p.songs@,
            (Ok(p), APIMajorVersion::V8) => step matches Step::Call(call, _) && ({
                &&& call.paths@.len() <= 200
                &&& call.paths@.len() == p.songs@.len() || call.paths@.len() == 200
                    && p.songs@.len() > 200
                &&& forall|i: int|
                    0 <= i < call.paths@.len() ==> cloned(p.songs@[i], #[trigger] call.paths@[i])
            }),
        },
{
}

/// A playlist is sent to version 8 with its header and all of its paths, and
/// with the songs that were found of those looked up, all of them, in order.
pub proof fn law_playlist_is_sent_whole<H, P: Clone, T, E, F, W: From<H>, S: From<T>>(
    stored: StoredPlaylist<H, P>,
    step: Step<GetSongs<P>, ListingPlaylist<H, P>, Result<Vec<P>, APIError<E>>>,
    found: Vec<Result<T, F>>,
    playlist: Playlist<W, P, S>,
) -> (places: Seq<int>)
    requires
        call_ensures(
            send_playlist::<H, P, E>,
            (Ok::<StoredPlaylist<H, P>, E>(stored), APIMajorVersion::V8),
            step,
        ),
        step matches Step::Call(_, state) ==> call_ensures(
            ListingPlaylist::<H, P>::resume::<T, F, W, S>,
            (state, found),
            playlist,
        ),
    ensures
        call_ensures(<W as From<H>>::from, (stored.header,), playlist.header),
        playlist.songs.paths@ == stored.songs@,
        places_of(places, found@, |r: Result<T, F>| r is Ok),
        playlist.songs.first_songs@.len() == places.len(),
        forall|k: int|
            0 <= k < places.len() ==> found@[#[trigger] places[k]] is Ok && call_ensures(
                <S as From<T>>::from,
                (found@[places[k]]->Ok_0,),
                playlist.songs.first_songs@[k],
            ),
{
    let places = law_successes_keep_their_order(found@);
    assert forall|k: int| 0 <= k < places.len() implies found@[#[trigger] places[k]] is Ok
        && call_ensures(
        <S as From<T>>::from,
        (found@[places[k]]->Ok_0,),
        playlist.songs.first_songs@[k],
    ) by {
        assert(crate::convert::converts(
            crate::convert::successes(found@)[k],
            playlist.songs.first_songs@[k],
        ));
    }
    places
}

} // verus!
