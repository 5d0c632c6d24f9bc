use polaris::config::Config;
use polaris::context::{ContextBuilder, CONFIG_FILE};
use polaris::users::get_initial_setup;

fn configuration(builder: ContextBuilder<()>) -> Config {
    let (_, _, building) = builder.build((), (), ());
    building.resume((), ()).0
}

#[test]
fn builder_collects_users_and_mounts_in_order() {
    let builder = ContextBuilder::new("test-output/builder".to_owned())
        .user("walter", "shoestring", true)
        .mount("root", "test-data/small-collection")
        .user("donny", "agate", false)
        .mount("more", "test-data/more");
    assert_eq!(builder.test_directory, "test-output/builder");
    let open = builder.managers_to_open();
    assert_eq!(open.config_directory, "test-output/builder");
    assert_eq!(open.config_file, "polaris.toml");
    assert_eq!(open.ndb_directory, "test-output/builder");
    assert_eq!(open.index_directory, "test-output/builder");
    let (scanner, playlists, building) = builder.build("config", "ndb", "index");
    assert_eq!((scanner.index_manager, scanner.config_manager), ("index", "config"));
    assert_eq!(playlists.ndb_manager, "ndb");
    let (config, applying) = building.resume("scanner", "playlists");
    assert_eq!(*applying.config_manager(), "config");
    let context = applying.resume::<()>(Ok(()));
    assert_eq!(context.index_manager, "index");
    assert_eq!(context.scanner, "scanner");
    assert_eq!(context.config_manager, "config");
    assert_eq!(context.playlist_manager, "playlists");
    assert_eq!(config.users.len(), 2);
    assert_eq!(config.users[0].name, "walter");
    assert_eq!(config.users[0].initial_password.as_deref(), Some("shoestring"));
    assert_eq!(config.users[0].admin, Some(true));
    assert_eq!(config.users[1].name, "donny");
    assert_eq!(config.users[1].initial_password.as_deref(), Some("agate"));
    assert_eq!(config.users[1].admin, Some(false));
    assert_eq!(config.mount_dirs.len(), 2);
    assert_eq!(config.mount_dirs[0].name, "root");
    assert_eq!(config.mount_dirs[0].source, "test-data/small-collection");
    assert_eq!(config.mount_dirs[1].name, "more");
}

#[test]
fn builder_starts_empty() {
    let config = configuration(ContextBuilder::new(()));
    assert!(config.users.is_empty());
    assert!(config.mount_dirs.is_empty());
    assert_eq!(CONFIG_FILE, "polaris.toml");
}

#[test]
fn setup_is_complete_from_the_first_admin_on() {
    let config = configuration(ContextBuilder::new(()));
    assert!(!get_initial_setup(&config.users).has_any_users);
    let config = configuration(ContextBuilder::new(()).user("a", "b", false));
    assert!(!get_initial_setup(&config.users).has_any_users);
    let mut config =
        configuration(ContextBuilder::new(()).user("a", "b", false).user("c", "d", true));
    assert!(get_initial_setup(&config.users).has_any_users);
    config.users[1].admin = None;
    assert!(!get_initial_setup(&config.users).has_any_users);
}
