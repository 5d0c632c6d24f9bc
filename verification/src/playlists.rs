//! Playlists. Every call is made for the account that asks: nobody reaches the
//! playlists of another.

use vstd::prelude::*;

use crate::catalog::{make_song_list, songs_to_look_up, GetSongs, SongList, SONG_LIST_CAPACITY};
use crate::convert::{clones_all, converts, converts_all, first, keep_successes, successes};
use crate::error::APIError;
use crate::step::Step;
use crate::users::Auth;
use crate::version::APIMajorVersion;

verus! {

/// A playlist as it is stored.
#[derive(Debug)]
pub struct StoredPlaylist<H, P> {
    pub header: H,
    pub songs: Vec<P>,
}

/// A playlist as it is sent.
#[derive(Debug)]
pub struct Playlist<W, P, S> {
    pub header: W,
    pub songs: SongList<P, S>,
}

/// The call that lists the playlists of an account.
#[derive(Debug)]
pub struct ListPlaylists {
    pub owner: String,
}

/// The call that reads a playlist.
#[derive(Debug)]
pub struct ReadPlaylist {
    pub name: String,
    pub owner: String,
}

/// The call that stores a playlist.
#[derive(Debug)]
pub struct SavePlaylist<T> {
    pub name: String,
    pub owner: String,
    pub songs: Vec<T>,
}

/// The call that deletes a playlist.
#[derive(Debug)]
pub struct DeletePlaylist {
    pub name: String,
    pub owner: String,
}

/// The playlists that a client asks for: its own.
pub fn get_playlists(auth: &Auth) -> (call: ListPlaylists)
    ensures
        call.owner == auth.username,
{
    ListPlaylists { owner: auth.username.clone() }
}

/// The playlist that a client wants deleted: its own of that name.
pub fn delete_playlist(auth: &Auth, name: String) -> (call: DeletePlaylist)
    ensures
        call.name == name,
        call.owner == auth.username,
{
    DeletePlaylist { name, owner: auth.username.clone() }
}

/// A playlist to be stored whose songs are being looked up.
#[derive(Debug)]
pub struct PutPlaylist {
    pub name: String,
    pub owner: String,
}

/// Starts to store a playlist: its songs are looked up first.
pub fn put_playlist<P>(auth: &Auth, name: String, tracks: Vec<P>) -> (start: (
    GetSongs<P>,
    PutPlaylist,
))
    ensures
        start.0 == (GetSongs { paths: tracks }),
        start.1 == (PutPlaylist { name, owner: auth.username }),
{
    (GetSongs { paths: tracks }, PutPlaylist { name, owner: auth.username.clone() })
}

impl PutPlaylist {
    /// Goes on once the songs have been looked up: those that were found are
    /// stored, in order.
    pub fn resume<T, E>(self, found: Vec<Result<T, E>>) -> (call: SavePlaylist<T>)
        ensures
            call.name == self.name,
            call.owner == self.owner,
            call.songs@ == successes(found@),
    {
        SavePlaylist { name: self.name, owner: self.owner, songs: keep_successes(found) }
    }
}

/// A playlist whose first songs are being looked up.
#[derive(Debug)]
pub struct ListingPlaylist<H, P> {
    pub header: H,
    pub paths: Vec<P>,
}

/// The playlist that a client asks for: its own of that name.
pub fn get_playlist(auth: &Auth, name: String) -> (call: ReadPlaylist)
    ensures
        call.name == name,
        call.owner == auth.username,
{
    ReadPlaylist { name, owner: auth.username.clone() }
}

/// Goes on once the playlist has been read: version 7 is sent the paths of its
/// songs, version 8 waits until the first of them have been looked up.
pub fn send_playlist<H, P: Clone, E>(
    playlist: Result<StoredPlaylist<H, P>, E>,
    api_version: APIMajorVersion,
) -> (step: Step<GetSongs<P>, ListingPlaylist<H, P>, Result<Vec<P>, APIError<E>>>)
    ensures
        match playlist {
            Err(e) => step == Step::<
                GetSongs<P>,
                ListingPlaylist<H, P>,
                Result<Vec<P>, APIError<E>>,
            >::Reply(Err(APIError::Manager(e))),
            Ok(p) => match api_version {
                APIMajorVersion::V7 => step == Step::<
                    GetSongs<P>,
                    ListingPlaylist<H, P>,
                    Result<Vec<P>, APIError<E>>,
                >::Reply(Ok(p.songs)),
                APIMajorVersion::V8 => step matches Step::Call(call, state) && clones_all(
                    first(p.songs@, SONG_LIST_CAPACITY as nat),
                    call.paths@,
                ) && state == (ListingPlaylist { header: p.header, paths: p.songs }),
            },
        },
{
    match playlist {
        Err(e) => Step::Reply(Err(APIError::Manager(e))),
        Ok(playlist) => match api_version {
            APIMajorVersion::V7 => Step::Reply(Ok(playlist.songs)),
            APIMajorVersion::V8 => Step::Call(
                songs_to_look_up(&playlist.songs),
                ListingPlaylist { header: playlist.header, paths: playlist.songs },
            ),
        },
    }
}

impl<H, P> ListingPlaylist<H, P> {
    /// Answers the request, once the first songs have been looked up.
    pub fn resume<T, E, W: From<H>, S: From<T>>(self, found: Vec<Result<T, E>>) -> (playlist:
        Playlist<W, P, S>)
        ensures
            converts(self.header, playlist.header),
            playlist.songs.paths == self.paths,
            converts_all(successes(found@), playlist.songs.first_songs@),
    {
        Playlist { header: W::from(self.header), songs: make_song_list(self.paths, found) }
    }
}

} // verus!
