use polaris::error::APIError;
use polaris::playlists::{
    delete_playlist, get_playlist, get_playlists, put_playlist, send_playlist, Playlist,
    StoredPlaylist,
};
use polaris::step::Step;
use polaris::users::Auth;
use polaris::version::APIMajorVersion;

fn walter() -> Auth {
    Auth { username: "walter".to_owned() }
}

#[test]
fn playlist_calls_are_made_for_the_account_that_asks() {
    assert_eq!(get_playlists(&walter()).owner, "walter");
    let read = get_playlist(&walter(), "mix".to_owned());
    assert_eq!((read.name.as_str(), read.owner.as_str()), ("mix", "walter"));
    let delete = delete_playlist(&walter(), "mix".to_owned());
    assert_eq!((delete.name.as_str(), delete.owner.as_str()), ("mix", "walter"));
}

#[test]
fn playlist_is_stored_without_missing_songs() {
    let (call, state) = put_playlist(&walter(), "mix".to_owned(), vec!["a", "b", "c"]);
    assert_eq!(call.paths, vec!["a", "b", "c"]);
    let found: Vec<Result<u32, ()>> = vec![Ok(1), Err(()), Ok(3)];
    let save = state.resume(found);
    assert_eq!((save.name.as_str(), save.owner.as_str()), ("mix", "walter"));
    assert_eq!(save.songs, vec![1, 3]);
}

#[test]
fn playlist_is_sent_as_paths_to_old_clients() {
    let stored = StoredPlaylist { header: 1u8, songs: vec!["a", "b"] };
    match send_playlist::<_, _, ()>(Ok(stored), APIMajorVersion::V7) {
        Step::Reply(Ok(paths)) => assert_eq!(paths, vec!["a", "b"]),
        _ => panic!("no reply"),
    }
}

#[test]
fn playlist_is_sent_whole_to_new_clients() {
    let songs: Vec<u32> = (0..250).collect();
    let stored = StoredPlaylist { header: 1u8, songs: songs.clone() };
    match send_playlist::<_, _, ()>(Ok(stored), APIMajorVersion::V8) {
        Step::Call(call, state) => {
            assert_eq!(call.paths, songs[..200].to_vec());
            let found: Vec<Result<u16, ()>> = vec![Ok(7), Err(())];
            let playlist: Playlist<u64, u32, u32> = state.resume(found);
            assert_eq!(playlist.header, 1u64);
            assert_eq!(playlist.songs.paths, songs);
            assert_eq!(playlist.songs.first_songs, vec![7u32]);
        }
        Step::Reply(_) => panic!("no lookup"),
    }
}

#[test]
fn unreadable_playlist_is_reported() {
    let read: Result<StoredPlaylist<u8, u8>, &str> = Err("not found");
    assert!(matches!(
        send_playlist(read, APIMajorVersion::V8),
        Step::Reply(Err(APIError::Manager("not found")))
    ));
}
