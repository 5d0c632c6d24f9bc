use std::path::PathBuf;

use polaris::catalog::{
    albums_to_response, answer_albums, answer_browse, get_album, get_browse, get_browse_root,
    get_flatten, get_flatten_root, get_genre, get_genre_albums, get_genre_artists, get_genre_songs,
    get_many, get_one, get_random_albums, get_recent_albums, get_search, get_songs, look_songs_up,
    make_song_list, songs_to_look_up, Album, CollectionFile, Genre, GetRandomAlbumsParameters,
    GetRecentAlbumsParameters, GetSongsBulkOutput, Song, SongList,
};
use polaris::convert::convert_all;
use polaris::error::APIError;
use polaris::step::Step;
use polaris::version::{get_version, APIMajorVersion, Versioned};

#[derive(Debug, PartialEq)]
struct Wire(String);

#[derive(Debug, PartialEq)]
struct OldSong(String);

impl From<&PathBuf> for OldSong {
    fn from(path: &PathBuf) -> Self {
        OldSong(path.display().to_string())
    }
}

impl From<u32> for Wire {
    fn from(n: u32) -> Self {
        Wire(n.to_string())
    }
}

impl From<Song<PathBuf, u32>> for Wire {
    fn from(song: Song<PathBuf, u32>) -> Self {
        Wire(format!("{} {}", song.virtual_path.display(), song.details))
    }
}

impl From<Album<u32, u32>> for Wire {
    fn from(album: Album<u32, u32>) -> Self {
        Wire(format!("{}/{}", album.header, album.details))
    }
}

fn wire(text: &str) -> Wire {
    Wire(text.to_owned())
}

fn paths(n: usize) -> Vec<PathBuf> {
    (0..n).map(|i| PathBuf::from(format!("song{i}"))).collect()
}

fn songs(n: u32) -> Vec<Song<PathBuf, u32>> {
    (0..n).map(|i| Song { virtual_path: PathBuf::from(format!("song{i}")), details: i }).collect()
}

#[test]
fn version_is_told() {
    let version = get_version(8, 1);
    assert_eq!((version.major, version.minor), (8, 1));
}

#[test]
fn lists_are_converted_in_order() {
    let wires: Vec<Wire> = convert_all(vec![3u32, 1, 2]);
    assert_eq!(wires, vec![wire("3"), wire("1"), wire("2")]);
}

#[test]
fn browsing_starts_at_the_empty_path() {
    assert_eq!(get_browse_root().path, "");
    assert_eq!(PathBuf::from(get_browse_root().path), PathBuf::new());
    assert_eq!(get_browse_root().path, get_browse(String::new()).path);
    assert_eq!(get_browse("root/Khemmis".to_owned()).path, "root/Khemmis");
}

#[test]
fn flattening_starts_at_the_empty_path() {
    assert_eq!(get_flatten_root().path, "");
    assert_eq!(PathBuf::from(get_flatten_root().path), PathBuf::new());
    assert_eq!(get_flatten_root().path, get_flatten(String::new()).path);
    assert_eq!(get_flatten("root/Khemmis".to_owned()).path, "root/Khemmis");
}

#[test]
fn files_are_sent_in_the_form_of_the_version() {
    let answer: Result<Versioned<Vec<Wire>, Vec<u64>>, APIError<()>> =
        answer_browse(Ok(vec![5u32]), APIMajorVersion::V7);
    match answer {
        Ok(Versioned::V7(files)) => assert_eq!(files, vec![wire("5")]),
        _ => panic!("wrong form"),
    }
    let answer: Result<Versioned<Vec<Wire>, Vec<u64>>, APIError<()>> =
        answer_browse(Ok(vec![5u32]), APIMajorVersion::V8);
    match answer {
        Ok(Versioned::V8(files)) => assert_eq!(files, vec![5u64]),
        _ => panic!("wrong form"),
    }
    let answer: Result<Versioned<Vec<Wire>, Vec<u64>>, APIError<u8>> =
        answer_browse(Err::<Vec<u32>, u8>(9), APIMajorVersion::V8);
    assert!(matches!(answer, Err(APIError::Manager(9))));
}

#[test]
fn albums_are_sent_whole_or_by_their_headers() {
    let albums = || Ok::<_, ()>(vec![Album { header: 1u32, details: 2u32 }]);
    let answer: Result<Versioned<Vec<Wire>, Vec<u64>>, APIError<()>> =
        answer_albums(albums(), APIMajorVersion::V7);
    assert!(matches!(answer, Ok(Versioned::V7(a)) if a == vec![wire("1/2")]));
    let answer: Result<Versioned<Vec<Wire>, Vec<u64>>, APIError<()>> =
        answer_albums(albums(), APIMajorVersion::V8);
    assert!(matches!(answer, Ok(Versioned::V8(b)) if b == vec![1u64]));
}

#[test]
fn albums_with_equal_headers_are_answered_equally() {
    let some = vec![Album { header: 1u32, details: 2u32 }, Album { header: 3, details: 4 }];
    let others = vec![Album { header: 1u32, details: 5u32 }, Album { header: 3, details: 6 }];
    let response: Versioned<Vec<Wire>, Vec<u64>> = albums_to_response(some, APIMajorVersion::V8);
    let other: Versioned<Vec<Wire>, Vec<u64>> = albums_to_response(others, APIMajorVersion::V8);
    match (response, other) {
        (Versioned::V8(a), Versioned::V8(b)) => {
            assert_eq!(a, vec![1, 3]);
            assert_eq!(a, b);
        }
        _ => panic!("wrong form"),
    }
}

#[test]
fn no_more_songs_are_looked_up_than_a_list_carries() {
    assert_eq!(songs_to_look_up(&paths(3)).paths, paths(3));
    assert_eq!(songs_to_look_up(&paths(200)).paths.len(), 200);
    assert_eq!(songs_to_look_up(&paths(201)).paths, paths(200));
}

#[test]
fn song_list_keeps_all_paths_and_drops_missing_songs() {
    let found: Vec<Result<u32, ()>> = vec![Ok(1), Err(()), Ok(3)];
    let list: SongList<PathBuf, Wire> = make_song_list(paths(4), found);
    assert_eq!(list.paths, paths(4));
    assert_eq!(list.first_songs, vec![wire("1"), wire("3")]);
}

#[test]
fn flatten_looks_songs_up_for_either_version() {
    for version in [APIMajorVersion::V7, APIMajorVersion::V8] {
        match look_songs_up::<PathBuf, ()>(Ok(paths(201))) {
            Step::Call(call, state) => {
                assert_eq!(call.paths, paths(200));
                let found: Vec<Result<u32, ()>> = (0..200).map(Ok).collect();
                let response: Versioned<Vec<OldSong>, SongList<PathBuf, Wire>> =
                    state.resume(found, version);
                match response {
                    Versioned::V7(songs) => {
                        assert_eq!(version, APIMajorVersion::V7);
                        assert_eq!(songs.len(), 201);
                        assert_eq!(songs[200], OldSong("song200".to_owned()));
                    }
                    Versioned::V8(list) => {
                        assert_eq!(version, APIMajorVersion::V8);
                        assert_eq!(list.paths, paths(201));
                        assert_eq!(list.first_songs.len(), 200);
                    }
                }
            }
            Step::Reply(_) => panic!("no lookup"),
        }
    }
    assert!(matches!(
        look_songs_up::<PathBuf, u8>(Err(7)),
        Step::Reply(APIError::Manager(7))
    ));
}

#[test]
fn one_and_many_are_converted_or_refused() {
    let one: Result<Wire, APIError<u8>> = get_one(Ok(4u32));
    assert!(matches!(one, Ok(w) if w == wire("4")));
    let one: Result<Wire, APIError<u8>> = get_one(Err::<u32, u8>(1));
    assert!(matches!(one, Err(APIError::Manager(1))));
    let many: Result<Vec<Wire>, APIError<u8>> = get_many(Ok(vec![4u32, 5]));
    assert!(matches!(many, Ok(w) if w == vec![wire("4"), wire("5")]));
    let many: Result<Vec<Wire>, APIError<u8>> = get_many(Err::<Vec<u32>, u8>(1));
    assert!(matches!(many, Err(APIError::Manager(1))));
}

#[test]
fn album_artists_are_taken_apart() {
    let call = get_album("Khemmis\u{c}Spirit Adrift", "Fraught".to_owned(), "\u{c}");
    assert_eq!(call.artists, vec!["Khemmis", "Spirit Adrift"]);
    assert_eq!(call.name, "Fraught");
}

#[test]
fn album_pages_have_defaults() {
    let call = get_random_albums(GetRandomAlbumsParameters {
        seed: Some(9),
        offset: None,
        count: None,
    });
    assert_eq!((call.seed, call.offset, call.count), (Some(9), 0, 20));
    let call = get_recent_albums(GetRecentAlbumsParameters { offset: Some(40), count: Some(0) });
    assert_eq!((call.offset, call.count), (40, 0));
    let call = get_recent_albums(GetRecentAlbumsParameters { offset: None, count: None });
    assert_eq!((call.offset, call.count), (0, 20));
}

#[test]
fn bulk_request_reports_what_is_missing() {
    let found: Vec<Result<u32, ()>> = vec![Err(()), Ok(1), Err(())];
    let output: GetSongsBulkOutput<PathBuf, Wire> = get_songs(&paths(3), found);
    assert_eq!(output.songs, vec![wire("1")]);
    assert_eq!(output.not_found, vec![PathBuf::from("song0"), PathBuf::from("song2")]);
    assert_eq!(output.songs.len() + output.not_found.len(), 3);
}

#[test]
fn genre_is_answered_by_a_list_of_one() {
    let genre: Result<Vec<Wire>, APIError<u8>> = get_genre(Ok(4u32));
    assert!(matches!(genre, Ok(w) if w == vec![wire("4")]));
    let genre: Result<Vec<Wire>, APIError<u8>> = get_genre(Err::<u32, u8>(3));
    assert!(matches!(genre, Err(APIError::Manager(3))));
}

#[test]
fn genre_is_answered_in_parts() {
    let genre = || {
        Ok::<_, ()>(Genre { albums: vec![1u32], artists: vec![2u32, 3], songs: songs(201), details: () })
    };
    let albums: Result<Vec<Wire>, APIError<()>> = get_genre_albums(genre());
    assert_eq!(albums.unwrap(), vec![wire("1")]);
    let artists: Result<Vec<Wire>, APIError<()>> = get_genre_artists(genre());
    assert_eq!(artists.unwrap(), vec![wire("2"), wire("3")]);
    let list: SongList<PathBuf, Wire> = get_genre_songs(genre()).unwrap();
    assert_eq!(list.paths, paths(201));
    assert_eq!(list.first_songs.len(), 200);
    assert_eq!(list.first_songs[199], wire("song199 199"));
}

type SearchAnswer =
    Result<Versioned<Vec<CollectionFile<(), OldSong>>, SongList<PathBuf, Wire>>, APIError<u8>>;

#[test]
fn search_is_answered_in_the_form_of_the_version() {
    let answer: SearchAnswer = get_search(Ok(songs(2)), APIMajorVersion::V7);
    match answer {
        Ok(Versioned::V7(files)) => {
            assert_eq!(files.len(), 2);
            assert!(matches!(&files[1], CollectionFile::Song(s) if s.0 == "song1"));
        }
        _ => panic!("wrong form"),
    }
    let answer: SearchAnswer = get_search(Ok(songs(2)), APIMajorVersion::V8);
    match answer {
        Ok(Versioned::V8(list)) => {
            assert_eq!(list.paths, paths(2));
            assert_eq!(list.first_songs, vec![wire("song0 0"), wire("song1 1")]);
        }
        _ => panic!("wrong form"),
    }
    let answer: SearchAnswer =
        get_search(Err::<Vec<Song<PathBuf, u32>>, u8>(2), APIMajorVersion::V7);
    assert!(matches!(answer, Err(APIError::Manager(2))));
}
