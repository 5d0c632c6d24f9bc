//! Browsing, listing and searching the collection.

use vstd::prelude::*;

use crate::catalog::{
    albums_to_response, answer_albums, answer_browse, get_album, get_browse, get_browse_root,
    get_flatten, get_flatten_root, get_genre, get_genre_albums, get_genre_artists, get_genre_songs,
    get_many, get_one, get_random_albums, get_recent_albums, get_search, get_songs,
    index_files_to_response, list_songs, look_songs_up, make_song_list, song_list_to_response,
    songs_to_look_up, Album, Browse, CollectionFile, Flatten, Flattening, Genre, GetAlbum,
    GetRandomAlbums, GetRandomAlbumsParameters, GetRecentAlbums, GetRecentAlbumsParameters, GetSongs,
    GetSongsBulkOutput, Song, SongList,
};
use crate::convert::{converts, successes};
use crate::error::APIError;
use crate::laws::lists::{
    law_missing_paths_keep_their_order, law_successes_keep_their_order, places_of,
};
use crate::step::Step;
use crate::text::{joined, law_join_undoes_split, law_pieces_hold_no_separator};
use crate::version::{APIMajorVersion, Versioned};

verus! {

/// The folder that a client names is the one that is listed or flattened; one
/// who names none starts at the empty path.
pub proof fn law_named_folder_is_asked_for(
    path: String,
    browse: Browse,
    flatten: Flatten,
    browse_root: Browse,
    flatten_root: Flatten,
)
    requires
        call_ensures(get_browse, (path,), browse),
        call_ensures(get_flatten, (path,), flatten),
        call_ensures(get_browse_root, (), browse_root),
        call_ensures(get_flatten_root, (), flatten_root),
    ensures
        browse.path@ == path@,
        flatten.path@ == path@,
        browse_root.path@.len() == 0,
        flatten_root.path@.len() == 0,
{
}

/// Every file of a folder is sent, in its place, in the form of the client's
/// version.
pub proof fn law_every_file_is_sent<F, A: From<F>, B: From<F>>(
    files: Vec<F>,
    api_version: APIMajorVersion,
    response: Versioned<Vec<A>, Vec<B>>,
    i: int,
)
    requires
        call_ensures(index_files_to_response::<F, A, B>, (files, api_version), response),
    ensures
        match api_version {
            APIMajorVersion::V7 => response matches Versioned::V7(a) && a@.len() == files@.len()
                && (0 <= i < files@.len() ==> call_ensures(
                <A as From<F>>::from,
                (files@[i],),
                a@[i],
            )),
            APIMajorVersion::V8 => response matches Versioned::V8(b) && b@.len() == files@.len()
                && (0 <= i < files@.len() ==> call_ensures(
                <B as From<F>>::from,
                (files@[i],),
                b@[i],
            )),
        },
{
    if 0 <= i < files@.len() {
        match response {
            Versioned::V7(a) => assert(converts(files@[i], a@[i])),
            Versioned::V8(b) => assert(converts(files@[i], b@[i])),
        }
    }
}

/// A folder that was listed is answered with every file of it; one that was
/// not, with the error of the manager.
pub proof fn law_folder_is_answered<F, E, A: From<F>, B: From<F>>(
    files: Result<Vec<F>, E>,
    api_version: APIMajorVersion,
    answer: Result<Versioned<Vec<A>, Vec<B>>, APIError<E>>,
    i: int,
)
    requires
        call_ensures(answer_browse::<F, E, A, B>, (files, api_version), answer),
    ensures
        match (files, api_version) {
            (Err(e), _) => answer matches Err(error) && error == APIError::Manager(e),
            (Ok(f), APIMajorVersion::V7) => answer matches Ok(Versioned::V7(a)) && a@.len()
                == f@.len() && (0 <= i < f@.len() ==> call_ensures(
                <A as From<F>>::from,
                (f@[i],),
                a@[i],
            )),
            (Ok(f), APIMajorVersion::V8) => answer matches Ok(Versioned::V8(b)) && b@.len()
                == f@.len() && (0 <= i < f@.len() ==> call_ensures(
                <B as From<F>>::from,
                (f@[i],),
                b@[i],
            )),
        },
{
    if files is Ok && 0 <= i < files->Ok_0@.len() {
        match answer->Ok_0 {
            Versioned::V7(a) => assert(converts(files->Ok_0@[i], a@[i])),
            Versioned::V8(b) => assert(converts(files->Ok_0@[i], b@[i])),
        }
    }
}

/// Every album is answered for, in its place: whole in version 7, by its header
/// in version 8.
pub proof fn law_every_album_is_sent<H, D, A: From<Album<H, D>>, B: From<H>>(
    albums: Vec<Album<H, D>>,
    api_version: APIMajorVersion,
    response: Versioned<Vec<A>, Vec<B>>,
    i: int,
)
    requires
        call_ensures(albums_to_response::<H, D, A, B>, (albums, api_version), response),
    ensures
        match api_version {
            APIMajorVersion::V7 => response matches Versioned::V7(a) && a@.len() == albums@.len()
                && (0 <= i < albums@.len() ==> call_ensures(
                <A as From<Album<H, D>>>::from,
                (albums@[i],),
                a@[i],
            )),
            APIMajorVersion::V8 => response matches Versioned::V8(b) && b@.len() == albums@.len()
                && (0 <= i < albums@.len() ==> call_ensures(
                <B as From<H>>::from,
                (albums@[i].header,),
                b@[i],
            )),
        },
{
    if 0 <= i < albums@.len() {
        match response {
            Versioned::V7(a) => assert(converts(albums@[i], a@[i])),
            Versioned::V8(b) => assert(converts(albums@[i].header, b@[i])),
        }
    }
}

/// A page of albums that was picked is answered with every album of it; one
/// that was not, with the error of the manager.
pub proof fn law_album_page_is_answered<H, D, E, A: From<Album<H, D>>, B: From<H>>(
    albums: Result<Vec<Album<H, D>>, E>,
    api_version: APIMajorVersion,
    answer: Result<Versioned<Vec<A>, Vec<B>>, APIError<E>>,
    i: int,
)
    requires
        call_ensures(answer_albums::<H, D, E, A, B>, (albums, api_version), answer),
    ensures
        match (albums, api_version) {
            (Err(e), _) => answer matches Err(error) && error == APIError::Manager(e),
            (Ok(page), APIMajorVersion::V7) => answer matches Ok(Versioned::V7(a)) && a@.len()
                == page@.len() && (0 <= i < page@.len() ==> call_ensures(
                <A as From<Album<H, D>>>::from,
                (page@[i],),
                a@[i],
            )),
            (Ok(page), APIMajorVersion::V8) => answer matches Ok(Versioned::V8(b)) && b@.len()
                == page@.len() && (0 <= i < page@.len() ==> call_ensures(
                <B as From<H>>::from,
                (page@[i].header,),
                b@[i],
            )),
        },
{
    if albums is Ok && 0 <= i < albums->Ok_0@.len() {
        match answer->Ok_0 {
            Versioned::V7(a) => assert(converts(albums->Ok_0@[i], a@[i])),
            Versioned::V8(b) => assert(converts(albums->Ok_0@[i].header, b@[i])),
        }
    }
}

/// The page of albums that is picked is the one that the client asks for; who
/// names no offset is given the front, and who names no count is given 20.
pub proof fn law_page_is_the_one_asked_for(
    random: GetRandomAlbumsParameters,
    random_call: GetRandomAlbums,
    recent: GetRecentAlbumsParameters,
    recent_call: GetRecentAlbums,
)
    requires
        call_ensures(get_random_albums, (random,), random_call),
        call_ensures(get_recent_albums, (recent,), recent_call),
    ensures
        random_call.seed == random.seed,
        match random.offset {
            Some(offset) => random_call.offset == offset,
            None => random_call.offset == 0,
        },
        match random.count {
            Some(count) => random_call.count == count,
            None => random_call.count == 20,
        },
        match recent.offset {
            Some(offset) => recent_call.offset == offset,
            None => recent_call.offset == 0,
        },
        match recent.count {
            Some(count) => recent_call.count == count,
            None => recent_call.count == 20,
        },
{
}

/// The artists that an album is looked up by are the pieces of the text that the
/// client sent: put together with the separator they give the text again, and
/// no separator begins in any of them, not even where it ends in the one that
/// follows. The name is as it was sent.
pub proof fn law_album_is_the_one_asked_for(
    artists: &str,
    name: String,
    separator: &str,
    call: GetAlbum,
    i: int,
    k: int,
)
    requires
        separator@.len() > 0,
        call_ensures(get_album, (artists, name, separator), call),
    ensures
        call.name@ == name@,
        call.artists@.len() > 0,
        joined(Seq::new(call.artists@.len(), |j: int| call.artists@[j]@), separator@) == artists@,
        0 <= i < call.artists@.len() && 0 <= k && k + separator@.len()
            <= call.artists@[i]@.len() ==> call.artists@[i]@.subrange(
            k,
            k + separator@.len(),
        ) != separator@,
        0 <= i < call.artists@.len() - 1 && 0 <= k < call.artists@[i]@.len() ==> (
        call.artists@[i]@ + separator@).subrange(k, k + separator@.len()) != separator@,
{
    let pieces = crate::text::split_at_separator(artists@, separator@);
    assert(Seq::new(call.artists@.len(), |j: int| call.artists@[j]@) =~= pieces);
    law_join_undoes_split(artists@, separator@);
    crate::text::law_there_is_a_piece(artists@, separator@);
    if 0 <= i < call.artists@.len() {
        assert(call.artists@[i]@ == pieces[i]);
        law_pieces_hold_no_separator(artists@, separator@, i);
        if i < call.artists@.len() - 1 {
            crate::text::law_cuts_come_first(artists@, separator@, i, k);
        }
        if 0 <= k && k + separator@.len() <= pieces[i].len() {
            assert(pieces[i].skip(k).take(separator@.len() as int) =~= pieces[i].subrange(
                k,
                k + separator@.len(),
            ));
        }
    }
}

/// As many songs are looked up as there are paths, but no more than 200, from
/// the front and in order.
pub proof fn law_first_songs_are_looked_up<P: Clone>(paths: Vec<P>, call: GetSongs<P>, i: int)
    requires
        call_ensures(songs_to_look_up::<P>, (&paths,), call),
    ensures
        call.paths@.len() <= 200,
        call.paths@.len() == paths@.len() || call.paths@.len() == 200 && paths@.len() > 200,
        0 <= i < call.paths@.len() ==> cloned(paths@[i], call.paths@[i]),
{
}

/// A list of songs has every path, and every song that was found, in order.
pub proof fn law_song_list_has_what_was_found<P, T, E, S: From<T>>(
    paths: Vec<P>,
    found: Vec<Result<T, E>>,
    list: SongList<P, S>,
) -> (places: Seq<int>)
    requires
        call_ensures(make_song_list::<P, T, E, S>, (paths, found), list),
    ensures
        list.paths@ == paths@,
        places_of(places, found@, |r: Result<T, E>| r is Ok),
        list.first_songs@.len() == places.len(),
        forall|k: int|
            0 <= k < places.len() ==> found@[#[trigger] places[k]] is Ok && call_ensures(
                <S as From<T>>::from,
                (found@[places[k]]->Ok_0,),
                list.first_songs@[k],
            ),
{
    let places = law_successes_keep_their_order(found@);
    assert forall|k: int| 0 <= k < places.len() implies found@[#[trigger] places[k]] is Ok
        && call_ensures(
        <S as From<T>>::from,
        (found@[places[k]]->Ok_0,),
        list.first_songs@[k],
    ) by {
        assert(converts(successes(found@)[k], list.first_songs@[k]));
    }
    places
}

/// A list of songs is sent by all of its paths, in order, to version 7, and as
/// it is to version 8.
pub proof fn law_song_list_is_sent<P, S, A: for<'a> From<&'a P>>(
    list: SongList<P, S>,
    api_version: APIMajorVersion,
    response: Versioned<Vec<A>, SongList<P, S>>,
    i: int,
)
    requires
        call_ensures(song_list_to_response::<P, S, A>, (list, api_version), response),
    ensures
        match api_version {
            APIMajorVersion::V7 => response matches Versioned::V7(a) && a@.len()
                == list.paths@.len() && (0 <= i < list.paths@.len() ==> call_ensures(
                <A as From<&P>>::from,
                (&list.paths@[i],),
                a@[i],
            )),
            APIMajorVersion::V8 => response matches Versioned::V8(sent) && sent.paths@
                == list.paths@ && sent.first_songs@ == list.first_songs@,
        },
{
}

/// Of the songs under a folder the first 200 are looked up, or all where there
/// are fewer. A folder that could not be flattened is refused by the error of
/// the manager.
pub proof fn law_songs_under_a_folder_are_looked_up<P: Clone, E>(
    paths: Result<Vec<P>, E>,
    step: Step<GetSongs<P>, Flattening<P>, APIError<E>>,
    i: int,
)
    requires
        call_ensures(look_songs_up::<P, E>, (paths,), step),
    ensures
        match paths {
            Err(e) => step matches Step::Reply(error) && error == APIError::Manager(e),
            Ok(p) => step matches Step::Call(call, _) && ({
                &&& call.paths@.len() <= 200
                &&& call.paths@.len() == p@.len() || call.paths@.len() == 200 && p@.len() > 200
                &&& 0 <= i < call.paths@.len() ==> cloned(p@[i], call.paths@[i])
            }),
        },
{
}

/// The songs under a folder are sent by all of their paths, in order, to version
/// 7; to version 8 with all of their paths, and with the songs that were found
/// of those looked up, all of them, in order.
pub proof fn law_songs_under_a_folder_are_sent<
    P: Clone,
    T,
    E,
    F,
    A: for<'a> From<&'a P>,
    S: From<T>,
>(
    paths: Vec<P>,
    step: Step<GetSongs<P>, Flattening<P>, APIError<E>>,
    found: Vec<Result<T, F>>,
    api_version: APIMajorVersion,
    response: Versioned<Vec<A>, SongList<P, S>>,
) -> (places: Seq<int>)
    requires
        call_ensures(look_songs_up::<P, E>, (Ok::<Vec<P>, E>(paths),), step),
        step matches Step::Call(_, state) ==> call_ensures(
            Flattening::<P>::resume::<T, F, A, S>,
            (state, found, api_version),
            response,
        ),
    ensures
        places_of(places, found@, |r: Result<T, F>| r is Ok),
        match api_version {
            APIMajorVersion::V7 => response matches Versioned::V7(a) && a@.len() == paths@.len()
                && forall|i: int|
                0 <= i < paths@.len() ==> call_ensures(
                    <A as From<&P>>::from,
                    (&paths@[i],),
                    #[trigger] a@[i],
                ),
            APIMajorVersion::V8 => response matches Versioned::V8(list) && list.paths@ == paths@
                && list.first_songs@.len() == places.len() && forall|k: int|
                0 <= k < places.len() ==> call_ensures(
                    <S as From<T>>::from,
                    (found@[#[trigger] places[k]]->Ok_0,),
                    list.first_songs@[k],
                ),
        },
{
    let places = law_successes_keep_their_order(found@);
    if let Versioned::V8(list) = response {
        assert forall|k: int| 0 <= k < places.len() implies call_ensures(
            <S as From<T>>::from,
            (found@[#[trigger] places[k]]->Ok_0,),
            list.first_songs@[k],
        ) by {
            assert(converts(successes(found@)[k], list.first_songs@[k]));
        }
    }
    places
}

/// What was found is sent: one thing, a genre as a list of one, or every item of
/// a list in its place. What was not is refused by the error of the manager.
pub proof fn law_what_was_found_is_sent<T, E, U: From<T>>(
    found: Result<T, E>,
    one: Result<U, APIError<E>>,
    genre: Result<Vec<U>, APIError<E>>,
    listed: Result<Vec<T>, E>,
    many: Result<Vec<U>, APIError<E>>,
    i: int,
)
    requires
        call_ensures(get_one::<T, E, U>, (found,), one),
        call_ensures(get_genre::<T, E, U>, (found,), genre),
        call_ensures(get_many::<T, E, U>, (listed,), many),
    ensures
        match found {
            Ok(value) => {
                &&& one matches Ok(wire) && call_ensures(<U as From<T>>::from, (value,), wire)
                &&& genre matches Ok(wires) && wires@.len() == 1 && call_ensures(
                    <U as From<T>>::from,
                    (value,),
                    wires@[0],
                )
            },
            Err(e) => {
                &&& one matches Err(error) && error == APIError::Manager(e)
                &&& genre matches Err(error) && error == APIError::Manager(e)
            },
        },
        match listed {
            Ok(values) => many matches Ok(wires) && wires@.len() == values@.len() && (0 <= i
                < values@.len() ==> call_ensures(<U as From<T>>::from, (values@[i],), wires@[i])),
            Err(e) => many matches Err(error) && error == APIError::Manager(e),
        },
{
    if listed is Ok && 0 <= i < listed->Ok_0@.len() {
        assert(converts(listed->Ok_0@[i], many->Ok_0@[i]));
    }
}

/// The albums and the artists of a genre are sent, every one in its place; a
/// genre that was not found is refused by the error of the manager.
pub proof fn law_parts_of_a_genre_are_sent<A, R, S, D, E, W: From<A>, V: From<R>>(
    genre: Result<Genre<A, R, S, D>, E>,
    albums: Result<Vec<W>, APIError<E>>,
    artists: Result<Vec<V>, APIError<E>>,
    i: int,
)
    requires
        call_ensures(get_genre_albums::<A, R, S, D, E, W>, (genre,), albums),
        call_ensures(get_genre_artists::<A, R, S, D, E, V>, (genre,), artists),
    ensures
        match genre {
            Ok(g) => {
                &&& albums matches Ok(wires) && wires@.len() == g.albums@.len() && (0 <= i
                    < g.albums@.len() ==> call_ensures(
                    <W as From<A>>::from,
                    (g.albums@[i],),
                    wires@[i],
                ))
                &&& artists matches Ok(wires) && wires@.len() == g.artists@.len() && (0 <= i
                    < g.artists@.len() ==> call_ensures(
                    <V as From<R>>::from,
                    (g.artists@[i],),
                    wires@[i],
                ))
            },
            Err(e) => {
                &&& albums matches Err(error) && error == APIError::Manager(e)
                &&& artists matches Err(error) && error == APIError::Manager(e)
            },
        },
{
    if let Ok(g) = genre {
        if 0 <= i < g.albums@.len() {
            assert(converts(g.albums@[i], albums->Ok_0@[i]));
        }
        if 0 <= i < g.artists@.len() {
            assert(converts(g.artists@[i], artists->Ok_0@[i]));
        }
    }
}

/// A list of songs at hand has the path of every song, and the first 200 songs
/// whole, or all where there are fewer; each in its place.
pub proof fn law_songs_at_hand_are_listed<P: Clone, D, S: From<Song<P, D>>>(
    songs: Vec<Song<P, D>>,
    list: SongList<P, S>,
    i: int,
)
    requires
        call_ensures(list_songs::<P, D, S>, (songs,), list),
    ensures
        list.paths@.len() == songs@.len(),
        0 <= i < songs@.len() ==> cloned(songs@[i].virtual_path, list.paths@[i]),
        list.first_songs@.len() <= 200,
        list.first_songs@.len() == songs@.len() || list.first_songs@.len() == 200 && songs@.len()
            > 200,
        0 <= i < list.first_songs@.len() ==> call_ensures(
            <S as From<Song<P, D>>>::from,
            (songs@[i],),
            list.first_songs@[i],
        ),
{
    lemma_lists(songs@, list, i);
}

proof fn lemma_lists<P: Clone, D, S: From<Song<P, D>>>(
    songs: Seq<Song<P, D>>,
    list: SongList<P, S>,
    i: int,
)
    requires
        crate::catalog::lists(songs, list),
    ensures
        list.paths@.len() == songs.len(),
        0 <= i < songs.len() ==> cloned(songs[i].virtual_path, list.paths@[i]),
        list.first_songs@.len() <= 200,
        list.first_songs@.len() == songs.len() || list.first_songs@.len() == 200 && songs.len()
            > 200,
        0 <= i < list.first_songs@.len() ==> call_ensures(
            <S as From<Song<P, D>>>::from,
            (songs[i],),
            list.first_songs@[i],
        ),
{
    if 0 <= i < songs.len() {
        assert(cloned(crate::catalog::virtual_paths(songs)[i], list.paths@[i]));
    }
    if 0 <= i < list.first_songs@.len() {
        assert(converts(songs[i], list.first_songs@[i]));
    }
}

/// The songs of a genre are sent with the path of every one, and the first 200
/// whole; a genre that was not found is refused by the error of the manager.
pub proof fn law_songs_of_a_genre_are_sent<A, R, P: Clone, T, D, E, S: From<Song<P, T>>>(
    genre: Result<Genre<A, R, Song<P, T>, D>, E>,
    answer: Result<SongList<P, S>, APIError<E>>,
    i: int,
)
    requires
        call_ensures(get_genre_songs::<A, R, P, T, D, E, S>, (genre,), answer),
    ensures
        match genre {
            Ok(g) => answer matches Ok(list) && ({
                &&& list.paths@.len() == g.songs@.len()
                &&& 0 <= i < g.songs@.len() ==> cloned(g.songs@[i].virtual_path, list.paths@[i])
                &&& list.first_songs@.len() <= 200
                &&& list.first_songs@.len() == g.songs@.len() || list.first_songs@.len() == 200
                    && g.songs@.len() > 200
                &&& 0 <= i < list.first_songs@.len() ==> call_ensures(
                    <S as From<Song<P, T>>>::from,
                    (g.songs@[i],),
                    list.first_songs@[i],
                )
            }),
            Err(e) => answer matches Err(error) && error == APIError::Manager(e),
        },
{
    if let Ok(g) = genre {
        lemma_lists(g.songs@, answer->Ok_0, i);
    }
}

/// A search is answered to version 7 by the path of every song found, in its
/// place, and to version 8 with the path of every one and the first 200 whole;
/// one that failed is refused by the error of the manager.
pub proof fn law_search_is_answered<P: Clone, T, D, E, A: for<'a> From<&'a P>, S: From<Song<P, T>>>(
    songs: Result<Vec<Song<P, T>>, E>,
    api_version: APIMajorVersion,
    answer: Result<Versioned<Vec<CollectionFile<D, A>>, SongList<P, S>>, APIError<E>>,
    i: int,
)
    requires
        call_ensures(get_search::<P, T, D, E, A, S>, (songs, api_version), answer),
    ensures
        match (songs, api_version) {
            (Err(e), _) => answer matches Err(error) && error == APIError::Manager(e),
            (Ok(found), APIMajorVersion::V7) => answer matches Ok(Versioned::V7(files)) && ({
                &&& files@.len() == found@.len()
                &&& 0 <= i < found@.len() ==> (files@[i] matches CollectionFile::Song(a) && exists|
                    path: P,
                |
                    #[trigger] cloned(found@[i].virtual_path, path) && call_ensures(
                        <A as From<&P>>::from,
                        (&path,),
                        a,
                    ))
            }),
            (Ok(found), APIMajorVersion::V8) => answer matches Ok(Versioned::V8(list)) && ({
                &&& list.paths@.len() == found@.len()
                &&& 0 <= i < found@.len() ==> cloned(found@[i].virtual_path, list.paths@[i])
                &&& list.first_songs@.len() <= 200
                &&& list.first_songs@.len() == found@.len() || list.first_songs@.len() == 200
                    && found@.len() > 200
                &&& 0 <= i < list.first_songs@.len() ==> call_ensures(
                    <S as From<Song<P, T>>>::from,
                    (found@[i],),
                    list.first_songs@[i],
                )
            }),
        },
{
    if let (Ok(found), Ok(Versioned::V8(list))) = (songs, answer) {
        lemma_lists(found@, list, i);
    }
}

/// Of many songs asked for, those that were found are sent, all of them, in
/// order; and so are the paths of all that were not.
pub proof fn law_found_and_missing_songs_are_told<P: Clone, T, E, S: From<T>>(
    paths: Vec<P>,
    found: Vec<Result<T, E>>,
    output: GetSongsBulkOutput<P, S>,
) -> (places: (Seq<int>, Seq<int>))
    requires
        call_ensures(get_songs::<P, T, E, S>, (&paths, found), output),
    ensures
        places_of(places.0, found@, |r: Result<T, E>| r is Ok),
        output.songs@.len() == places.0.len(),
        forall|k: int|
            0 <= k < places.0.len() ==> call_ensures(
                <S as From<T>>::from,
                (found@[#[trigger] places.0[k]]->Ok_0,),
                output.songs@[k],
            ),
        places_of(places.1, found@, |r: Result<T, E>| r is Err),
        output.not_found@.len() == places.1.len(),
        forall|k: int|
            0 <= k < places.1.len() ==> cloned(
                paths@[#[trigger] places.1[k]],
                output.not_found@[k],
            ),
{
    let kept = law_successes_keep_their_order(found@);
    let lost = law_missing_paths_keep_their_order(paths@, found@);
    assert forall|k: int| 0 <= k < kept.len() implies call_ensures(
        <S as From<T>>::from,
        (found@[#[trigger] kept[k]]->Ok_0,),
        output.songs@[k],
    ) by {
        assert(converts(successes(found@)[k], output.songs@[k]));
    }
    assert forall|k: int| 0 <= k < lost.len() implies cloned(
        paths@[#[trigger] lost[k]],
        output.not_found@[k],
    ) by {
        assert(cloned(crate::catalog::missing(paths@, found@)[k], output.not_found@[k]));
    }
    (kept, lost)
}

} // verus!
