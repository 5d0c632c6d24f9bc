use polaris::routes::{router, Access, CompressionLevel, Method, Operation, BODY_LIMIT};

#[test]
fn routes_are_unambiguous() {
    let routes = router();
    assert_eq!(routes.len(), 39);
    for (i, a) in routes.iter().enumerate() {
        for b in &routes[i + 1..] {
            assert!(a.method != b.method || a.path != b.path);
        }
    }
}

#[test]
fn audio_is_the_last_route_and_sent_as_it_is() {
    assert_eq!(BODY_LIMIT, 10 * 1024 * 1024);
    let routes = router();
    let (audio, others) = routes.split_last().unwrap();
    assert_eq!(audio.operation, Operation::GetAudio);
    assert_eq!(audio.path, "/audio/{*path}");
    assert_eq!(audio.compression, None);
    assert_eq!(audio.body_limit, None);
    for route in others {
        assert_eq!(route.compression, Some(CompressionLevel::Fastest));
        assert_eq!(route.body_limit, Some(BODY_LIMIT));
    }
}

#[test]
fn old_album_paths_are_kept() {
    let routes = router();
    let old: Vec<(&str, Operation)> =
        routes.iter().filter(|r| !r.documented).map(|r| (r.path, r.operation)).collect();
    assert_eq!(
        old,
        vec![("/random", Operation::GetRandomAlbums), ("/recent", Operation::GetRecentAlbums)]
    );
}

#[test]
fn little_is_open_to_all() {
    let mut open: Vec<&str> = Vec::new();
    for route in router() {
        if route.operation.access() == Access::Public {
            open.push(route.path);
        }
    }
    assert_eq!(open, vec!["/version", "/initial_setup", "/auth"]);
    assert_eq!(Operation::PutUser.access(), Access::Admin);
    assert_eq!(Operation::GetPlaylist.access(), Access::User);
}

#[test]
fn songs_are_asked_for_by_post() {
    assert_eq!(Operation::GetSongs.method(), Method::Post);
    assert_eq!(Operation::GetSongs.path(), "/songs");
    assert_eq!(Operation::DeleteUser.method(), Method::Delete);
    assert_eq!(Operation::PutSettings.method(), Method::Put);
    assert_eq!(Operation::GetAlbum.path(), "/artists/{artists}/albums/{album}");
}
