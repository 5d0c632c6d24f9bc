//! Browsing, listing and searching the collection.

use vstd::prelude::*;

use crate::convert::{
    clone_first, clones_all, clones_are_equal, convert_all, convert_refs, converts, converts_all, converts_refs, first,
    is_function, is_function_of_refs, keep_successes, law_equal_lists_convert_equally,
    law_equal_refs_convert_equally, law_successes, successes,
};
use crate::error::APIError;
use crate::step::Step;
use crate::text::{joined, law_split_undoes_join, split_at_separator, split_text, texts_view};
use crate::version::{APIMajorVersion, Versioned};

verus! {

/// How many songs of a list are sent whole; of the others only the path is.
pub const SONG_LIST_CAPACITY: usize = 200;

/// A list of songs: the paths of all of them, and the first of them whole.
#[derive(Debug)]
pub struct SongList<P, S> {
    pub paths: Vec<P>,
    pub first_songs: Vec<S>,
}

/// A song of the collection, with all that is known of it besides its path.
#[derive(Debug)]
pub struct Song<P, D> {
    pub virtual_path: P,
    pub details: D,
}

/// An album of the collection, with all that is known of it besides its header.
#[derive(Debug)]
pub struct Album<H, D> {
    pub header: H,
    pub details: D,
}

/// A genre of the collection, with all that is known of it besides what
/// belongs to it.
#[derive(Debug)]
pub struct Genre<A, R, S, D> {
    pub albums: Vec<A>,
    pub artists: Vec<R>,
    pub songs: Vec<S>,
    pub details: D,
}

/// An entry of the collection in the form of API version 7.
#[derive(Debug)]
pub enum CollectionFile<D, S> {
    Directory(D),
    Song(S),
}

/// The page of random albums that a client asks for.
#[derive(Debug)]
pub struct GetRandomAlbumsParameters {
    pub seed: Option<u64>,
    pub offset: Option<usize>,
    pub count: Option<usize>,
}

/// The page of recent albums that a client asks for.
#[derive(Debug)]
pub struct GetRecentAlbumsParameters {
    pub offset: Option<usize>,
    pub count: Option<usize>,
}

/// The call that picks random albums.
#[derive(Debug)]
pub struct GetRandomAlbums {
    pub seed: Option<u64>,
    pub offset: usize,
    pub count: usize,
}

/// The call that picks recent albums.
#[derive(Debug)]
pub struct GetRecentAlbums {
    pub offset: usize,
    pub count: usize,
}

/// The call that looks an album up.
#[derive(Debug)]
pub struct GetAlbum {
    pub artists: Vec<String>,
    pub name: String,
}

/// The call that looks songs up.
#[derive(Debug)]
pub struct GetSongs<P> {
    pub paths: Vec<P>,
}

/// What a client that asked for many songs is given.
#[derive(Debug)]
pub struct GetSongsBulkOutput<P, S> {
    pub songs: Vec<S>,
    pub not_found: Vec<P>,
}

/// How many albums a client gets that does not say how many it wants.
pub const DEFAULT_ALBUM_COUNT: usize = 20;

/// The call that lists the files of a folder.
#[derive(Debug)]
pub struct Browse {
    pub path: String,
}

/// The call that finds the songs under a folder.
#[derive(Debug)]
pub struct Flatten {
    pub path: String,
}

/// A client asks for the files of the folder that browsing starts in: the
/// empty path.
pub fn get_browse_root() -> (call: Browse)
    ensures
        call.path@ == Seq::<char>::empty(),
{
    Browse { path: String::new() }
}

/// A client asks for the files of a folder.
pub fn get_browse(path: String) -> (call: Browse)
    ensures
        call == (Browse { path }),
{
    Browse { path }
}

/// A client asks for all songs of the collection: those under the empty path.
pub fn get_flatten_root() -> (call: Flatten)
    ensures
        call.path@ == Seq::<char>::empty(),
{
    Flatten { path: String::new() }
}

/// A client asks for the songs under a folder.
pub fn get_flatten(path: String) -> (call: Flatten)
    ensures
        call == (Flatten { path }),
{
    Flatten { path }
}

/// `response` has `files` in the form of `api_version`.
pub open spec fn sends_files<F, A: From<F>, B: From<F>>(
    files: Seq<F>,
    api_version: APIMajorVersion,
    response: Versioned<Vec<A>, Vec<B>>,
) -> bool {
    match api_version {
        APIMajorVersion::V7 => response matches Versioned::V7(a) && converts_all(files, a@),
        APIMajorVersion::V8 => response matches Versioned::V8(b) && converts_all(files, b@),
    }
}

/// Lists files in the form of the client's version.
pub fn index_files_to_response<F, A: From<F>, B: From<F>>(
    files: Vec<F>,
    api_version: APIMajorVersion,
) -> (response: Versioned<Vec<A>, Vec<B>>)
    ensures
        sends_files(files@, api_version, response),
{
    match api_version {
        APIMajorVersion::V7 => Versioned::V7(convert_all(files)),
        APIMajorVersion::V8 => Versioned::V8(convert_all(files)),
    }
}

/// The headers of `albums`.
pub open spec fn headers<H, D>(albums: Seq<Album<H, D>>) -> Seq<H> {
    Seq::new(albums.len(), |i: int| albums[i].header)
}

fn into_headers<H, D>(albums: Vec<Album<H, D>>) -> (r: Vec<H>)
    ensures
        r@ == headers(albums@),
{
    let mut r: Vec<H> = Vec::new();
    for album in it: albums.into_iter()
        invariant
            it.seq() == albums@,
            r@.len() == it.index(),
            forall|i: int| 0 <= i < it.index() ==> r@[i] == albums@[i].header,
    {
        r.push(album.header);
    }
    r
}

/// `response` has `albums` in the form of `api_version`: whole for version 7,
/// by their headers for version 8.
pub open spec fn sends_albums<H, D, A: From<Album<H, D>>, B: From<H>>(
    albums: Seq<Album<H, D>>,
    api_version: APIMajorVersion,
    response: Versioned<Vec<A>, Vec<B>>,
) -> bool {
    match api_version {
        APIMajorVersion::V7 => response matches Versioned::V7(a) && converts_all(albums, a@),
        APIMajorVersion::V8 => response matches Versioned::V8(b) && converts_all(
            headers(albums),
            b@,
        ),
    }
}

/// Lists albums in the form of the client's version: whole for version 7, by
/// their headers for version 8.
pub fn albums_to_response<H, D, A: From<Album<H, D>>, B: From<H>>(
    albums: Vec<Album<H, D>>,
    api_version: APIMajorVersion,
) -> (response: Versioned<Vec<A>, Vec<B>>)
    ensures
        sends_albums(albums@, api_version, response),
{
    match api_version {
        APIMajorVersion::V7 => Versioned::V7(convert_all(albums)),
        APIMajorVersion::V8 => Versioned::V8(convert_all(into_headers(albums))),
    }
}

/// The first part of making a list of songs: the songs to look up are the
/// first [`SONG_LIST_CAPACITY`] of `paths`.
pub fn songs_to_look_up<P: Clone>(paths: &Vec<P>) -> (call: GetSongs<P>)
    ensures
        clones_all(first(paths@, SONG_LIST_CAPACITY as nat), call.paths@),
{
    GetSongs { paths: clone_first(paths, SONG_LIST_CAPACITY) }
}

/// The second part of making a list of songs: every path stays in it, and of
/// the songs looked up those that were found, in order.
pub fn make_song_list<P, T, E, S: From<T>>(paths: Vec<P>, found: Vec<Result<T, E>>) -> (list:
    SongList<P, S>)
    ensures
        list.paths == paths,
        converts_all(successes(found@), list.first_songs@),
{
    SongList { paths, first_songs: convert_all(keep_successes(found)) }
}

/// Sends a list of songs in the form of the client's version: only the paths
/// for version 7, as it is for version 8.
pub fn song_list_to_response<P, S, A: for<'a> From<&'a P>>(
    song_list: SongList<P, S>,
    api_version: APIMajorVersion,
) -> (response: Versioned<Vec<A>, SongList<P, S>>)
    ensures
        match api_version {
            APIMajorVersion::V7 => response matches Versioned::V7(a) && converts_refs(
                song_list.paths@,
                a@,
            ),
            APIMajorVersion::V8 => response == Versioned::<Vec<A>, _>::V8(song_list),
        },
{
    match api_version {
        APIMajorVersion::V7 => Versioned::V7(convert_refs(&song_list.paths)),
        APIMajorVersion::V8 => Versioned::V8(song_list),
    }
}

/// `answer` is the answer to a request for the files of a folder where `files`
/// came of listing it.
pub open spec fn answers_browse<F, E, A: From<F>, B: From<F>>(
    files: Result<Vec<F>, E>,
    api_version: APIMajorVersion,
    answer: Result<Versioned<Vec<A>, Vec<B>>, APIError<E>>,
) -> bool {
    match files {
        Ok(f) => answer matches Ok(response) && sends_files(f@, api_version, response),
        Err(e) => answer == Err::<Versioned<Vec<A>, Vec<B>>, _>(APIError::Manager(e)),
    }
}

/// Answers a request for the files of a folder.
pub fn answer_browse<F, E, A: From<F>, B: From<F>>(
    files: Result<Vec<F>, E>,
    api_version: APIMajorVersion,
) -> (answer: Result<Versioned<Vec<A>, Vec<B>>, APIError<E>>)
    ensures
        answers_browse(files, api_version, answer),
{
    match files {
        Ok(files) => Ok(index_files_to_response(files, api_version)),
        Err(e) => Err(APIError::Manager(e)),
    }
}

/// A request for the songs under a folder whose first songs are being looked
/// up.
#[derive(Debug)]
pub struct Flattening<P> {
    pub paths: Vec<P>,
}

/// `step` is how a request for the songs under a folder goes on where `paths`
/// came of finding them.
pub open spec fn looks_songs_up<P: Clone, E>(
    paths: Result<Vec<P>, E>,
    step: Step<GetSongs<P>, Flattening<P>, APIError<E>>,
) -> bool {
    match paths {
        Ok(p) => step matches Step::Call(call, state) && clones_all(
            first(p@, SONG_LIST_CAPACITY as nat),
            call.paths@,
        ) && state == (Flattening { paths: p }),
        Err(e) => step == Step::<GetSongs<P>, Flattening<P>, _>::Reply(APIError::Manager(e)),
    }
}

/// Goes on with a request for the songs under a folder, once their paths are
/// known. The first songs are looked up for either version of the API.
pub fn look_songs_up<P: Clone, E>(paths: Result<Vec<P>, E>) -> (step: Step<
    GetSongs<P>,
    Flattening<P>,
    APIError<E>,
>)
    ensures
        looks_songs_up(paths, step),
{
    match paths {
        Ok(paths) => Step::Call(songs_to_look_up(&paths), Flattening { paths }),
        Err(e) => Step::Reply(APIError::Manager(e)),
    }
}

/// `response` has the songs under a folder in the form of `api_version`: by all
/// of their `paths` for version 7, with those that were `found` for version 8.
pub open spec fn sends_songs<P, T, E, A: for<'a> From<&'a P>, S: From<T>>(
    paths: Vec<P>,
    found: Seq<Result<T, E>>,
    api_version: APIMajorVersion,
    response: Versioned<Vec<A>, SongList<P, S>>,
) -> bool {
    match api_version {
        APIMajorVersion::V7 => response matches Versioned::V7(a) && converts_refs(paths@, a@),
        APIMajorVersion::V8 => response matches Versioned::V8(list) && list.paths == paths
            && converts_all(successes(found), list.first_songs@),
    }
}

impl<P> Flattening<P> {
    /// Answers the request, once the first songs have been looked up.
    pub fn resume<T, E, A: for<'a> From<&'a P>, S: From<T>>(
        self,
        found: Vec<Result<T, E>>,
        api_version: APIMajorVersion,
    ) -> (response: Versioned<Vec<A>, SongList<P, S>>)
        ensures
            sends_songs(self.paths, found@, api_version, response),
    {
        song_list_to_response(make_song_list(self.paths, found), api_version)
    }
}

/// Answers a request for something by its name: converted, if it was found.
pub fn get_one<T, E, U: From<T>>(found: Result<T, E>) -> (answer: Result<U, APIError<E>>)
    ensures
        match found {
            Ok(value) => answer matches Ok(wire) && converts(value, wire),
            Err(e) => answer == Err::<U, _>(APIError::Manager(e)),
        },
{
    match found {
        Ok(value) => Ok(U::from(value)),
        Err(e) => Err(APIError::Manager(e)),
    }
}

/// Answers a request for a list: converted, if there is one.
pub fn get_many<T, E, U: From<T>>(found: Result<Vec<T>, E>) -> (answer: Result<
    Vec<U>,
    APIError<E>,
>)
    ensures
        match found {
            Ok(values) => answer matches Ok(wires) && converts_all(values@, wires@),
            Err(e) => answer == Err::<Vec<U>, _>(APIError::Manager(e)),
        },
{
    match found {
        Ok(values) => Ok(convert_all(values)),
        Err(e) => Err(APIError::Manager(e)),
    }
}

/// The album that a client asks for: `artists` holds the names of its artists,
/// with `separator` between them.
pub fn get_album(artists: &str, name: String, separator: &str) -> (call: GetAlbum)
    requires
        separator@.len() > 0,
    ensures
        texts_view(call.artists@) == split_at_separator(artists@, separator@),
        call.name == name,
{
    GetAlbum { artists: split_text(artists, separator), name }
}

/// The random albums that a client asks for: from the first one on, and
/// [`DEFAULT_ALBUM_COUNT`] of them, unless it says otherwise.
pub fn get_random_albums(options: GetRandomAlbumsParameters) -> (call: GetRandomAlbums)
    ensures
        call.seed == options.seed,
        call.offset == options.offset.unwrap_or(0),
        call.count == options.count.unwrap_or(DEFAULT_ALBUM_COUNT),
{
    GetRandomAlbums {
        seed: options.seed,
        offset: options.offset.unwrap_or(0),
        count: options.count.unwrap_or(DEFAULT_ALBUM_COUNT),
    }
}

/// The recent albums that a client asks for: from the latest one on, and
/// [`DEFAULT_ALBUM_COUNT`] of them, unless it says otherwise.
pub fn get_recent_albums(options: GetRecentAlbumsParameters) -> (call: GetRecentAlbums)
    ensures
        call.offset == options.offset.unwrap_or(0),
        call.count == options.count.unwrap_or(DEFAULT_ALBUM_COUNT),
{
    GetRecentAlbums {
        offset: options.offset.unwrap_or(0),
        count: options.count.unwrap_or(DEFAULT_ALBUM_COUNT),
    }
}

/// Answers a request for a page of albums.
pub fn answer_albums<H, D, E, A: From<Album<H, D>>, B: From<H>>(
    albums: Result<Vec<Album<H, D>>, E>,
    api_version: APIMajorVersion,
) -> (answer: Result<Versioned<Vec<A>, Vec<B>>, APIError<E>>)
    ensures
        match albums {
            Ok(a) => answer matches Ok(response) && sends_albums(a@, api_version, response),
            Err(e) => answer == Err::<Versioned<Vec<A>, Vec<B>>, _>(APIError::Manager(e)),
        },
{
    match albums {
        Ok(albums) => Ok(albums_to_response(albums, api_version)),
        Err(e) => Err(APIError::Manager(e)),
    }
}

/// The paths whose result is a failure, in order.
pub open spec fn missing<P, T, E>(paths: Seq<P>, results: Seq<Result<T, E>>) -> Seq<P>
    decreases results.len(),
{
    if results.len() == 0 {
        Seq::empty()
    } else {
        match results.last() {
            Ok(_) => missing(paths, results.drop_last()),
            Err(_) => missing(paths, results.drop_last()).push(paths[results.len() - 1]),
        }
    }
}

/// Answers a request for many songs: those that were found, and the paths of
/// those that were not. `found` has the results for `paths`, in order.
pub fn get_songs<P: Clone, T, E, S: From<T>>(paths: &Vec<P>, found: Vec<Result<T, E>>) -> (output:
    GetSongsBulkOutput<P, S>)
    requires
        forall|i: int| 0 <= i < found@.len() && #[trigger] found@[i] is Err ==> i < paths@.len(),
    ensures
        converts_all(successes(found@), output.songs@),
        clones_all(missing(paths@, found@), output.not_found@),
{
    let mut songs: Vec<S> = Vec::new();
    let mut not_found: Vec<P> = Vec::new();
    let mut i: usize = 0;
    for result in it: found.into_iter()
        invariant
            it.seq() == found@,
            i == it.index(),
            found.len() == found@.len(),
            forall|j: int|
                0 <= j < found@.len() && #[trigger] found@[j] is Err ==> j < paths@.len(),
            converts_all(successes(found@.take(i as int)), songs@),
            clones_all(missing(paths@, found@.take(i as int)), not_found@),
    {
        proof {
            assert(found@.take(i + 1).drop_last() == found@.take(i as int));
            assert(found@[i as int] == result);
        }
        match result {
            Ok(song) => songs.push(S::from(song)),
            Err(_) => not_found.push(paths[i].clone()),
        }
        i = i + 1;
    }
    proof {
        assert(found@.take(found@.len() as int) == found@);
    }
    GetSongsBulkOutput { songs, not_found }
}

/// `list` has the paths of `songs`, and the first [`SONG_LIST_CAPACITY`] of
/// them whole.
pub open spec fn lists<P: Clone, D, S: From<Song<P, D>>>(
    songs: Seq<Song<P, D>>,
    list: SongList<P, S>,
) -> bool {
    &&& clones_all(virtual_paths(songs), list.paths@)
    &&& converts_all(first(songs, SONG_LIST_CAPACITY as nat), list.first_songs@)
}

/// The paths of `songs`.
pub open spec fn virtual_paths<P, D>(songs: Seq<Song<P, D>>) -> Seq<P> {
    Seq::new(songs.len(), |i: int| songs[i].virtual_path)
}

/// Makes a list of songs that are at hand.
pub fn list_songs<P: Clone, D, S: From<Song<P, D>>>(songs: Vec<Song<P, D>>) -> (list: SongList<
    P,
    S,
>)
    ensures
        lists(songs@, list),
{
    let mut paths: Vec<P> = Vec::new();
    let mut i: usize = 0;
    while i < songs.len()
        invariant
            i <= songs@.len(),
            paths@.len() == i,
            forall|j: int|
                0 <= j < i ==> cloned(virtual_paths(songs@)[j], #[trigger] paths@[j]),
        decreases songs@.len() - i,
    {
        paths.push(songs[i].virtual_path.clone());
        i = i + 1;
    }
    let mut songs = songs;
    let ghost all = songs@;
    if songs.len() > SONG_LIST_CAPACITY {
        songs.truncate(SONG_LIST_CAPACITY);
    }
    proof {
        assert(songs@ == first(all, SONG_LIST_CAPACITY as nat));
    }
    SongList { paths, first_songs: convert_all(songs) }
}

/// Answers a request for a genre: a list of one, if it was found.
pub fn get_genre<T, E, U: From<T>>(genre: Result<T, E>) -> (answer: Result<Vec<U>, APIError<E>>)
    ensures
        match genre {
            Ok(g) => answer matches Ok(wires) && wires@.len() == 1 && converts(g, wires@[0]),
            Err(e) => answer == Err::<Vec<U>, _>(APIError::Manager(e)),
        },
{
    match genre {
        Ok(genre) => {
            let mut wires: Vec<U> = Vec::new();
            wires.push(U::from(genre));
            Ok(wires)
        },
        Err(e) => Err(APIError::Manager(e)),
    }
}

/// Answers a request for the albums of a genre.
pub fn get_genre_albums<A, R, S, D, E, W: From<A>>(genre: Result<Genre<A, R, S, D>, E>) -> (answer:
    Result<Vec<W>, APIError<E>>)
    ensures
        match genre {
            Ok(g) => answer matches Ok(wires) && converts_all(g.albums@, wires@),
            Err(e) => answer == Err::<Vec<W>, _>(APIError::Manager(e)),
        },
{
    match genre {
        Ok(genre) => Ok(convert_all(genre.albums)),
        Err(e) => Err(APIError::Manager(e)),
    }
}

/// Answers a request for the artists of a genre.
pub fn get_genre_artists<A, R, S, D, E, W: From<R>>(genre: Result<Genre<A, R, S, D>, E>) -> (answer:
    Result<Vec<W>, APIError<E>>)
    ensures
        match genre {
            Ok(g) => answer matches Ok(wires) && converts_all(g.artists@, wires@),
            Err(e) => answer == Err::<Vec<W>, _>(APIError::Manager(e)),
        },
{
    match genre {
        Ok(genre) => Ok(convert_all(genre.artists)),
        Err(e) => Err(APIError::Manager(e)),
    }
}

/// Answers a request for the songs of a genre.
pub fn get_genre_songs<A, R, P: Clone, T, D, E, S: From<Song<P, T>>>(
    genre: Result<Genre<A, R, Song<P, T>, D>, E>,
) -> (answer: Result<SongList<P, S>, APIError<E>>)
    ensures
        match genre {
            Ok(g) => answer matches Ok(list) && lists(g.songs@, list),
            Err(e) => answer == Err::<SongList<P, S>, _>(APIError::Manager(e)),
        },
{
    match genre {
        Ok(genre) => Ok(list_songs(genre.songs)),
        Err(e) => Err(APIError::Manager(e)),
    }
}

/// `files` names `songs`, in order, by their paths.
pub open spec fn names_songs<P: Clone, T, D, A: for<'a> From<&'a P>>(
    songs: Seq<Song<P, T>>,
    files: Seq<CollectionFile<D, A>>,
) -> bool {
    &&& files.len() == songs.len()
    &&& forall|i: int|
        0 <= i < songs.len() ==> (#[trigger] files[i] matches CollectionFile::Song(a) && exists|
            path: P,
        |
            #[trigger] cloned(songs[i].virtual_path, path) && call_ensures(
                <A as From<&P>>::from,
                (&path,),
                a,
            ))
}

fn into_files<D, A>(songs: Vec<A>) -> (files: Vec<CollectionFile<D, A>>)
    ensures
        files@ == Seq::new(songs@.len(), |i: int| CollectionFile::<D, A>::Song(songs@[i])),
{
    let mut files: Vec<CollectionFile<D, A>> = Vec::new();
    for song in it: songs.into_iter()
        invariant
            it.seq() == songs@,
            files@.len() == it.index(),
            forall|i: int|
                0 <= i < it.index() ==> files@[i] == CollectionFile::<D, A>::Song(songs@[i]),
    {
        files.push(CollectionFile::Song(song));
    }
    files
}

/// Answers a search: by the paths of the songs found for version 7, by a list
/// of songs for version 8.
pub fn get_search<P: Clone, T, D, E, A: for<'a> From<&'a P>, S: From<Song<P, T>>>(
    songs: Result<Vec<Song<P, T>>, E>,
    api_version: APIMajorVersion,
) -> (answer: Result<Versioned<Vec<CollectionFile<D, A>>, SongList<P, S>>, APIError<E>>)
    ensures
        match songs {
            Ok(s) => match api_version {
                APIMajorVersion::V7 => answer matches Ok(Versioned::V7(files)) && names_songs(
                    s@,
                    files@,
                ),
                APIMajorVersion::V8 => answer matches Ok(Versioned::V8(list)) && lists(s@, list),
            },
            Err(e) => answer == Err::<
                Versioned<Vec<CollectionFile<D, A>>, SongList<P, S>>,
                _,
            >(APIError::Manager(e)),
        },
{
    let songs = match songs {
        Ok(songs) => songs,
        Err(e) => return Err(APIError::Manager(e)),
    };
    let song_list: SongList<P, S> = list_songs(songs);
    match api_version {
        APIMajorVersion::V7 => {
            let named: Vec<A> = convert_refs(&song_list.paths);
            let files: Vec<CollectionFile<D, A>> = into_files(named);
            proof {
                assert forall|i: int| 0 <= i < songs@.len() implies (#[trigger] files@[i] matches
                    CollectionFile::Song(a) && exists|path: P| #[trigger] cloned(
                    songs@[i].virtual_path,
                    path,
                ) && call_ensures(<A as From<&P>>::from, (&path,), a)) by {
                    assert(cloned(virtual_paths(songs@)[i], song_list.paths@[i]));
                    assert(files@[i] == CollectionFile::<D, A>::Song(named@[i]));
                }
            }
            Ok(Versioned::V7(files))
        },
        APIMajorVersion::V8 => Ok(Versioned::V8(song_list)),
    }
}

/// Every result is reported exactly once: as many songs and paths come out as
/// results went in.
pub proof fn law_every_result_is_reported<P, T, E>(paths: Seq<P>, results: Seq<Result<T, E>>)
    ensures
        successes(results).len() + missing(paths, results).len() == results.len(),
    decreases results.len(),
{
    if results.len() > 0 {
        law_every_result_is_reported(paths, results.drop_last());
    }
}

/// A path is reported missing if and only if its result is a failure.
pub proof fn law_missing_paths<P, T, E>(paths: Seq<P>, results: Seq<Result<T, E>>, path: P)
    ensures
        missing(paths, results).contains(path) <==> exists|i: int|
            0 <= i < results.len() && #[trigger] results[i] is Err && paths[i] == path,
    decreases results.len(),
{
    if results.len() > 0 {
        let before = results.drop_last();
        let last = results.len() - 1;
        law_missing_paths(paths, before, path);
        let fewer = missing(paths, before);
        if results[last] is Err {
            assert(missing(paths, results) == fewer.push(paths[last]));
            assert(missing(paths, results)[fewer.len() as int] == paths[last]);
            if fewer.contains(path) {
                let k = choose|k: int| 0 <= k < fewer.len() && fewer[k] == path;
                assert(missing(paths, results)[k] == path);
            }
        }
        if exists|i: int| 0 <= i < before.len() && #[trigger] before[i] is Err && paths[i] == path {
            let i = choose|i: int|
                0 <= i < before.len() && #[trigger] before[i] is Err && paths[i] == path;
            assert(results[i] is Err);
        }
        if exists|i: int| 0 <= i < results.len() && #[trigger] results[i] is Err && paths[i]
            == path {
            let i = choose|i: int|
                0 <= i < results.len() && #[trigger] results[i] is Err && paths[i] == path;
            if i < last {
                assert(before[i] is Err);
            }
        }
    }
}

/// No list of songs carries more than [`SONG_LIST_CAPACITY`] songs whole: not
/// one made from results for the paths that were to be looked up, and not one
/// made from songs at hand, which carries that many if there are as many.
pub proof fn law_song_lists_are_bounded<P: Clone, T, E, D, S: From<T>, W: From<Song<P, D>>>(
    paths: Seq<P>,
    asked: GetSongs<P>,
    found: Seq<Result<T, E>>,
    looked_up: SongList<P, S>,
    songs: Seq<Song<P, D>>,
    at_hand: SongList<P, W>,
)
    requires
        clones_all(first(paths, SONG_LIST_CAPACITY as nat), asked.paths@),
        found.len() <= asked.paths@.len(),
        converts_all(successes(found), looked_up.first_songs@),
        lists(songs, at_hand),
    ensures
        looked_up.first_songs@.len() <= SONG_LIST_CAPACITY,
        at_hand.first_songs@.len() == if songs.len() <= SONG_LIST_CAPACITY {
            songs.len()
        } else {
            SONG_LIST_CAPACITY as nat
        },
        at_hand.paths@.len() == songs.len(),
{
    law_successes(found);
}

/// Version 8 tells albums by their headers alone: whatever else is known of
/// them, what answers for some albums answers for others with equal headers.
/// Where converting a header gives the same every time, the answers are equal.
pub proof fn law_albums_are_told_by_their_headers<H, D, A: From<Album<H, D>>, B: From<H>>(
    some: Seq<Album<H, D>>,
    others: Seq<Album<H, D>>,
    response: Versioned<Vec<A>, Vec<B>>,
    other_response: Versioned<Vec<A>, Vec<B>>,
)
    requires
        some.len() == others.len(),
        forall|i: int| 0 <= i < some.len() ==> (#[trigger] some[i]).header == others[i].header,
        sends_albums(some, APIMajorVersion::V8, response),
        sends_albums(others, APIMajorVersion::V8, other_response),
    ensures
        sends_albums(others, APIMajorVersion::V8, response),
        sends_albums(some, APIMajorVersion::V8, other_response),
        response matches Versioned::V8(b) && other_response matches Versioned::V8(c) && b@.len()
            == c@.len() && (is_function::<H, B>() ==> b@ == c@),
{
    assert(headers(some) =~= headers(others));
    if is_function::<H, B>() {
        law_equal_lists_convert_equally(headers(some), response->V8_0@, other_response->V8_0@);
    }
}

/// Browsing the root is browsing the empty path. The same call is made; where
/// the index lists a folder the same way both times, what answers the one
/// request answers the other, and the same error comes back. Where converting a
/// file gives the same every time, the answers are equal.
pub proof fn law_browsing_the_root<F, E, A: From<F>, B: From<F>>(
    index: spec_fn(Seq<char>) -> Result<Vec<F>, E>,
    api_version: APIMajorVersion,
    root: Browse,
    folder: Browse,
    root_answer: Result<Versioned<Vec<A>, Vec<B>>, APIError<E>>,
    folder_answer: Result<Versioned<Vec<A>, Vec<B>>, APIError<E>>,
)
    requires
        root.path@ == Seq::<char>::empty(),
        folder.path@ == Seq::<char>::empty(),
        answers_browse(index(root.path@), api_version, root_answer),
        answers_browse(index(folder.path@), api_version, folder_answer),
    ensures
        root.path@ == folder.path@,
        answers_browse(index(folder.path@), api_version, root_answer),
        answers_browse(index(root.path@), api_version, folder_answer),
        match (root_answer, folder_answer) {
            (Ok(Versioned::V7(a)), Ok(Versioned::V7(b))) => is_function::<F, A>() ==> a@ == b@,
            (Ok(Versioned::V8(a)), Ok(Versioned::V8(b))) => is_function::<F, B>() ==> a@ == b@,
            (Err(a), Err(b)) => a == b,
            _ => false,
        },
{
    match (root_answer, folder_answer) {
        (Ok(Versioned::V7(a)), Ok(Versioned::V7(b))) => if is_function::<F, A>() {
            law_equal_lists_convert_equally(index(root.path@)->Ok_0@, a@, b@);
        },
        (Ok(Versioned::V8(a)), Ok(Versioned::V8(b))) => if is_function::<F, B>() {
            law_equal_lists_convert_equally(index(root.path@)->Ok_0@, a@, b@);
        },
        _ => {},
    }
}

/// Flattening the root is flattening the empty path. The same call is made;
/// where the index finds songs the same way both times, the one request goes on
/// as the other may, with the same paths, or the same error comes back. Where
/// clones of a path are equal to it, and converting gives the same every time,
/// the same songs are looked up and the answers are equal.
pub proof fn law_flattening_the_root<P: Clone, T, E, F, A: for<'a> From<&'a P>, S: From<T>>(
    index: spec_fn(Seq<char>) -> Result<Vec<P>, E>,
    look_up: spec_fn(Seq<P>) -> Seq<Result<T, F>>,
    api_version: APIMajorVersion,
    root: Flatten,
    folder: Flatten,
    root_step: Step<GetSongs<P>, Flattening<P>, APIError<E>>,
    folder_step: Step<GetSongs<P>, Flattening<P>, APIError<E>>,
    root_response: Versioned<Vec<A>, SongList<P, S>>,
    folder_response: Versioned<Vec<A>, SongList<P, S>>,
)
    requires
        root.path@ == Seq::<char>::empty(),
        folder.path@ == Seq::<char>::empty(),
        looks_songs_up(index(root.path@), root_step),
        looks_songs_up(index(folder.path@), folder_step),
        root_step matches Step::Call(call, state) ==> sends_songs(
            state.paths,
            look_up(call.paths@),
            api_version,
            root_response,
        ),
        folder_step matches Step::Call(call, state) ==> sends_songs(
            state.paths,
            look_up(call.paths@),
            api_version,
            folder_response,
        ),
    ensures
        root.path@ == folder.path@,
        looks_songs_up(index(folder.path@), root_step),
        looks_songs_up(index(root.path@), folder_step),
        match (root_step, folder_step) {
            (Step::Call(a, s), Step::Call(b, t)) => {
                &&& s == t
                &&& clones_are_equal::<P>() ==> a.paths@ == b.paths@
                &&& match (root_response, folder_response) {
                    (Versioned::V7(v), Versioned::V7(w)) => is_function_of_refs::<P, A>() ==> v@
                        == w@,
                    (Versioned::V8(v), Versioned::V8(w)) => v.paths == w.paths && (
                    clones_are_equal::<P>() && is_function::<T, S>() ==> v.first_songs@
                        == w.first_songs@),
                    _ => false,
                }
            },
            (Step::Reply(a), Step::Reply(b)) => a == b,
            _ => false,
        },
{
    if let Ok(paths) = index(root.path@) {
        let asked = root_step->Call_0.paths@;
        let asked_again = folder_step->Call_0.paths@;
        if clones_are_equal::<P>() {
            assert forall|i: int| 0 <= i < asked.len() implies asked[i] == asked_again[i] by {
                assert(cloned(first(paths@, SONG_LIST_CAPACITY as nat)[i], asked[i]));
                assert(cloned(first(paths@, SONG_LIST_CAPACITY as nat)[i], asked_again[i]));
            }
            assert(asked =~= asked_again);
        }
        match api_version {
            APIMajorVersion::V7 => if is_function_of_refs::<P, A>() {
                law_equal_refs_convert_equally(
                    paths@,
                    root_response->V7_0@,
                    folder_response->V7_0@,
                );
            },
            APIMajorVersion::V8 => if clones_are_equal::<P>() && is_function::<T, S>() {
                law_equal_lists_convert_equally(
                    successes(look_up(asked)),
                    root_response->V8_0.first_songs@,
                    folder_response->V8_0.first_songs@,
                );
            },
        }
    }
}

/// An album can be asked for by any artists whose names are free of a
/// one-character separator: the names that the client joined are those that
/// are looked up.
pub proof fn law_album_artists_survive(names: Seq<Seq<char>>, separator: char, call: GetAlbum)
    requires
        names.len() > 0,
        forall|i: int| 0 <= i < names.len() ==> !(#[trigger] names[i]).contains(separator),
        texts_view(call.artists@) == split_at_separator(
            joined(names, seq![separator]),
            seq![separator],
        ),
    ensures
        texts_view(call.artists@) == names,
{
    law_split_undoes_join(names, separator);
}

} // verus!
