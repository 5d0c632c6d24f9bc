//! Putting a server together, and what it can be asked for.

use vstd::prelude::*;

use crate::config::Config;
use crate::context::{
    Applying, Building, Context, ContextBuilder, OpenManagers, OpenPlaylists, StartScanner,
};
use crate::routes::{router, Access, CompressionLevel, Method, Operation, Route};
use crate::version::{get_version, Version};

verus! {

/// The server is asked by these methods, at these paths, for these operations.
/// All but the two old paths of the album pages are documented.
pub proof fn law_routes(routes: Vec<Route>)
    requires
        call_ensures(router, (), routes),
    ensures
        routes@.map_values(|r: Route| (r.method, r.path, r.operation, r.documented)) == seq![
            (Method::Get, "/version", Operation::GetVersion, true),
            (Method::Get, "/initial_setup", Operation::GetInitialSetup, true),
            (Method::Post, "/auth", Operation::PostAuth, true),
            (Method::Get, "/settings", Operation::GetSettings, true),
            (Method::Put, "/settings", Operation::PutSettings, true),
            (Method::Get, "/mount_dirs", Operation::GetMountDirs, true),
            (Method::Put, "/mount_dirs", Operation::PutMountDirs, true),
            (Method::Post, "/trigger_index", Operation::PostTriggerIndex, true),
            (Method::Get, "/index_status", Operation::GetIndexStatus, true),
            (Method::Post, "/user", Operation::PostUser, true),
            (Method::Delete, "/user/{name}", Operation::DeleteUser, true),
            (Method::Put, "/user/{name}", Operation::PutUser, true),
            (Method::Get, "/users", Operation::GetUsers, true),
            (Method::Get, "/browse", Operation::GetBrowseRoot, true),
            (Method::Get, "/browse/{*path}", Operation::GetBrowse, true),
            (Method::Get, "/flatten", Operation::GetFlattenRoot, true),
            (Method::Get, "/flatten/{*path}", Operation::GetFlatten, true),
            (Method::Get, "/albums", Operation::GetAlbums, true),
            (Method::Get, "/albums/recent", Operation::GetRecentAlbums, true),
            (Method::Get, "/albums/random", Operation::GetRandomAlbums, true),
            (Method::Get, "/artists", Operation::GetArtists, true),
            (Method::Get, "/artists/{artist}", Operation::GetArtist, true),
            (Method::Get, "/artists/{artists}/albums/{album}", Operation::GetAlbum, true),
            (Method::Get, "/genres", Operation::GetGenres, true),
            (Method::Get, "/genres/{genre}", Operation::GetGenre, true),
            (Method::Get, "/genres/{genre}/albums", Operation::GetGenreAlbums, true),
            (Method::Get, "/genres/{genre}/artists", Operation::GetGenreArtists, true),
            (Method::Get, "/genres/{genre}/songs", Operation::GetGenreSongs, true),
            (Method::Get, "/random", Operation::GetRandomAlbums, false),
            (Method::Get, "/recent", Operation::GetRecentAlbums, false),
            (Method::Get, "/search/{*query}", Operation::GetSearch, true),
            (Method::Get, "/playlists", Operation::GetPlaylists, true),
            (Method::Put, "/playlist/{name}", Operation::PutPlaylist, true),
            (Method::Get, "/playlist/{name}", Operation::GetPlaylist, true),
            (Method::Delete, "/playlist/{name}", Operation::DeletePlaylist, true),
            (Method::Post, "/songs", Operation::GetSongs, true),
            (Method::Get, "/peaks/{*path}", Operation::GetPeaks, true),
            (Method::Get, "/thumbnail/{*path}", Operation::GetThumbnail, true),
            (Method::Get, "/audio/{*path}", Operation::GetAudio, true),
        ],
{
    assert(routes@ == crate::routes::route_table());
}

/// Every answer is compressed as fast as can be, and every request held to ten
/// mebibytes, but for audio files.
pub proof fn law_answers_are_compressed(routes: Vec<Route>, i: int)
    requires
        call_ensures(router, (), routes),
        0 <= i < routes@.len(),
    ensures
        match routes@[i].operation {
            Operation::GetAudio => routes@[i].compression is None && routes@[i].body_limit is None,
            _ => routes@[i].compression == Some(CompressionLevel::Fastest) && routes@[i].body_limit
                == Some(10_485_760usize),
        },
{
}

/// Every operation has a documented route, with its method and its path.
pub proof fn law_every_operation_has_a_route(
    operation: Operation,
    method: Method,
    path: &'static str,
    routes: Vec<Route>,
)
    requires
        call_ensures(router, (), routes),
        call_ensures(Operation::method, (operation,), method),
        call_ensures(Operation::path, (operation,), path),
    ensures
        exists|i: int|
            0 <= i < routes@.len() && (#[trigger] routes@[i]).documented && routes@[i].operation
                == operation && routes@[i].method == method && routes@[i].path == path,
{
    crate::routes::law_every_operation_is_served(operation);
    let i = choose|i: int|
        0 <= i < routes@.len() && routes@[i] == crate::routes::served(operation);
    assert(routes@[i].documented);
}

/// Anyone may ask for the version, the setup and a login. Settings, folders,
/// accounts and the scanner are for administrators. All else is for whoever has
/// logged in.
pub proof fn law_who_may_ask(operation: Operation, access: Access)
    requires
        call_ensures(Operation::access, (operation,), access),
    ensures
        access is Public <==> (operation is GetVersion || operation is GetInitialSetup || operation
            is PostAuth),
        access is Admin <==> (operation is GetSettings || operation is PutSettings || operation
            is GetMountDirs || operation is PutMountDirs || operation is PostTriggerIndex
            || operation is GetIndexStatus || operation is PostUser || operation is DeleteUser
            || operation is PutUser || operation is GetUsers),
{
}

/// The server tells the version it is of.
pub proof fn law_version_is_told(major: i32, minor: i32, version: Version)
    requires
        call_ensures(get_version, (major, minor), version),
    ensures
        version.major == major,
        version.minor == minor,
{
}

/// A server starts without accounts and folders, and its managers are opened on
/// the directory it was started with: the configuration on the file
/// `polaris.toml` in it, the database and the index on the directory itself.
/// Accounts and folders that are added do not change the directory.
pub proof fn law_managers_are_opened_on_the_directory<P: Clone>(
    directory: P,
    builder: ContextBuilder<P>,
    name: &str,
    password: &str,
    is_admin: bool,
    with_account: ContextBuilder<P>,
    source: &str,
    with_folder: ContextBuilder<P>,
    open: OpenManagers<P>,
    open_later: OpenManagers<P>,
)
    requires
        call_ensures(ContextBuilder::<P>::new, (directory,), builder),
        call_ensures(ContextBuilder::<P>::user, (builder, name, password, is_admin), with_account),
        call_ensures(ContextBuilder::<P>::mount, (with_account, name, source), with_folder),
        call_ensures(ContextBuilder::<P>::managers_to_open, (&builder,), open),
        call_ensures(ContextBuilder::<P>::managers_to_open, (&with_folder,), open_later),
    ensures
        open.config_file@ == "polaris.toml"@,
        open_later.config_file@ == "polaris.toml"@,
        cloned(directory, open.config_directory),
        cloned(directory, open.ndb_directory),
        cloned(directory, open.index_directory),
        cloned(directory, open_later.config_directory),
        cloned(directory, open_later.ndb_directory),
        cloned(directory, open_later.index_directory),
{
}

/// Nothing is applied to a server that nothing was added to.
pub proof fn law_new_server_has_no_accounts<P, N, I: Clone, S, C: Clone, L>(
    directory: P,
    builder: ContextBuilder<P>,
    managers: (C, N, I),
    start: (StartScanner<I, C>, OpenPlaylists<N>, Building<I, C>),
    others: (S, L),
    last: (Config, Applying<I, S, C, L>),
)
    requires
        call_ensures(ContextBuilder::<P>::new, (directory,), builder),
        call_ensures(
            ContextBuilder::<P>::build::<C, N, I>,
            (builder, managers.0, managers.1, managers.2),
            start,
        ),
        call_ensures(Building::<I, C>::resume::<S, L>, (start.2, others.0, others.1), last),
    ensures
        last.0.users@.len() == 0,
        last.0.mount_dirs@.len() == 0,
{
    assert(last.0@.users.len() == 0);
    assert(last.0@.mount_dirs.len() == 0);
}

/// An account that is added is applied behind those there were, with the name,
/// the password and the rights given; nothing else about what is applied
/// changes.
pub proof fn law_added_account_is_applied<P, N, I: Clone, S, C: Clone, L>(
    builder: ContextBuilder<P>,
    name: &str,
    password: &str,
    is_admin: bool,
    more: ContextBuilder<P>,
    managers: (C, N, I),
    start: (StartScanner<I, C>, OpenPlaylists<N>, Building<I, C>),
    start_with_more: (StartScanner<I, C>, OpenPlaylists<N>, Building<I, C>),
    others: (S, L),
    before: (Config, Applying<I, S, C, L>),
    after: (Config, Applying<I, S, C, L>),
)
    requires
        call_ensures(ContextBuilder::<P>::user, (builder, name, password, is_admin), more),
        call_ensures(
            ContextBuilder::<P>::build::<C, N, I>,
            (builder, managers.0, managers.1, managers.2),
            start,
        ),
        call_ensures(
            ContextBuilder::<P>::build::<C, N, I>,
            (more, managers.0, managers.1, managers.2),
            start_with_more,
        ),
        call_ensures(Building::<I, C>::resume::<S, L>, (start.2, others.0, others.1), before),
        call_ensures(
            Building::<I, C>::resume::<S, L>,
            (start_with_more.2, others.0, others.1),
            after,
        ),
    ensures
        after.0.users@.len() == before.0.users@.len() + 1,
        after.0.users@.last().name@ == name@,
        after.0.users@.last().initial_password matches Some(p) && p@ == password@,
        after.0.users@.last().admin == Some(is_admin),
        forall|i: int| 0 <= i < before.0.users@.len() ==> {
            &&& (#[trigger] after.0.users@[i]).name@ == before.0.users@[i].name@
            &&& match (after.0.users@[i].initial_password, before.0.users@[i].initial_password) {
                (Some(a), Some(b)) => a@ == b@,
                (None, None) => true,
                _ => false,
            }
            &&& after.0.users@[i].admin == before.0.users@[i].admin
        },
        after.0.mount_dirs@.len() == before.0.mount_dirs@.len(),
        forall|i: int| 0 <= i < before.0.mount_dirs@.len() ==> {
            &&& (#[trigger] after.0.mount_dirs@[i]).name@ == before.0.mount_dirs@[i].name@
            &&& after.0.mount_dirs@[i].source@ == before.0.mount_dirs@[i].source@
        },
{
    let old = before.0@;
    let new = after.0@;
    assert(old.users.len() == before.0.users@.len());
    assert(new.users.len() == after.0.users@.len());
    assert(new.users[old.users.len() as int] == after.0.users@.last()@);
    assert(new.mount_dirs.len() == old.mount_dirs.len());
    assert forall|i: int| 0 <= i < before.0.users@.len() implies {
        &&& (#[trigger] after.0.users@[i]).name@ == before.0.users@[i].name@
        &&& match (after.0.users@[i].initial_password, before.0.users@[i].initial_password) {
            (Some(a), Some(b)) => a@ == b@,
            (None, None) => true,
            _ => false,
        }
        &&& after.0.users@[i].admin == before.0.users@[i].admin
    } by {
        assert(new.users[i] == old.users[i]);
        assert(new.users[i] == after.0.users@[i]@);
        assert(old.users[i] == before.0.users@[i]@);
    }
    assert forall|i: int| 0 <= i < before.0.mount_dirs@.len() implies {
        &&& (#[trigger] after.0.mount_dirs@[i]).name@ == before.0.mount_dirs@[i].name@
        &&& after.0.mount_dirs@[i].source@ == before.0.mount_dirs@[i].source@
    } by {
        assert(new.mount_dirs[i] == after.0.mount_dirs@[i]@);
        assert(old.mount_dirs[i] == before.0.mount_dirs@[i]@);
    }
}

/// A folder that is added is applied behind those there were, with the name and
/// the source given; nothing else about what is applied changes.
pub proof fn law_added_folder_is_applied<P, N, I: Clone, S, C: Clone, L>(
    builder: ContextBuilder<P>,
    name: &str,
    source: &str,
    more: ContextBuilder<P>,
    managers: (C, N, I),
    start: (StartScanner<I, C>, OpenPlaylists<N>, Building<I, C>),
    start_with_more: (StartScanner<I, C>, OpenPlaylists<N>, Building<I, C>),
    others: (S, L),
    before: (Config, Applying<I, S, C, L>),
    after: (Config, Applying<I, S, C, L>),
)
    requires
        call_ensures(ContextBuilder::<P>::mount, (builder, name, source), more),
        call_ensures(
            ContextBuilder::<P>::build::<C, N, I>,
            (builder, managers.0, managers.1, managers.2),
            start,
        ),
        call_ensures(
            ContextBuilder::<P>::build::<C, N, I>,
            (more, managers.0, managers.1, managers.2),
            start_with_more,
        ),
        call_ensures(Building::<I, C>::resume::<S, L>, (start.2, others.0, others.1), before),
        call_ensures(
            Building::<I, C>::resume::<S, L>,
            (start_with_more.2, others.0, others.1),
            after,
        ),
    ensures
        after.0.mount_dirs@.len() == before.0.mount_dirs@.len() + 1,
        after.0.mount_dirs@.last().name@ == name@,
        after.0.mount_dirs@.last().source@ == source@,
        forall|i: int| 0 <= i < before.0.mount_dirs@.len() ==> {
            &&& (#[trigger] after.0.mount_dirs@[i]).name@ == before.0.mount_dirs@[i].name@
            &&& after.0.mount_dirs@[i].source@ == before.0.mount_dirs@[i].source@
        },
        after.0.users@.len() == before.0.users@.len(),
        forall|i: int| 0 <= i < before.0.users@.len() ==> {
            &&& (#[trigger] after.0.users@[i]).name@ == before.0.users@[i].name@
            &&& match (after.0.users@[i].initial_password, before.0.users@[i].initial_password) {
                (Some(a), Some(b)) => a@ == b@,
                (None, None) => true,
                _ => false,
            }
            &&& after.0.users@[i].admin == before.0.users@[i].admin
        },
{
    let old = before.0@;
    let new = after.0@;
    assert(old.mount_dirs.len() == before.0.mount_dirs@.len());
    assert(new.mount_dirs.len() == after.0.mount_dirs@.len());
    assert(new.mount_dirs[old.mount_dirs.len() as int] == after.0.mount_dirs@.last()@);
    assert(new.users.len() == old.users.len());
    assert forall|i: int| 0 <= i < before.0.mount_dirs@.len() implies {
        &&& (#[trigger] after.0.mount_dirs@[i]).name@ == before.0.mount_dirs@[i].name@
        &&& after.0.mount_dirs@[i].source@ == before.0.mount_dirs@[i].source@
    } by {
        assert(new.mount_dirs[i] == old.mount_dirs[i]);
        assert(new.mount_dirs[i] == after.0.mount_dirs@[i]@);
        assert(old.mount_dirs[i] == before.0.mount_dirs@[i]@);
    }
    assert forall|i: int| 0 <= i < before.0.users@.len() implies {
        &&& (#[trigger] after.0.users@[i]).name@ == before.0.users@[i].name@
        &&& match (after.0.users@[i].initial_password, before.0.users@[i].initial_password) {
            (Some(a), Some(b)) => a@ == b@,
            (None, None) => true,
            _ => false,
        }
        &&& after.0.users@[i].admin == before.0.users@[i].admin
    } by {
        assert(new.users[i] == after.0.users@[i]@);
        assert(old.users[i] == before.0.users@[i]@);
    }
}

/// A server serves the managers that were opened for it, its scanner works on
/// clones of its index and its configuration manager, its playlists on its
/// database, and its configuration is applied to the manager that it serves.
pub proof fn law_server_serves_its_managers<P, N, I: Clone, S, C: Clone, L, E>(
    builder: ContextBuilder<P>,
    config_manager: C,
    ndb_manager: N,
    index_manager: I,
    start: (StartScanner<I, C>, OpenPlaylists<N>, Building<I, C>),
    scanner: S,
    playlist_manager: L,
    last: (Config, Applying<I, S, C, L>),
    applied_to: &C,
    context: Context<I, S, C, L>,
)
    requires
        call_ensures(
            ContextBuilder::<P>::build::<C, N, I>,
            (builder, config_manager, ndb_manager, index_manager),
            start,
        ),
        call_ensures(
            Building::<I, C>::resume::<S, L>,
            (start.2, scanner, playlist_manager),
            last,
        ),
        call_ensures(Applying::<I, S, C, L>::config_manager, (&last.1,), applied_to),
        call_ensures(
            Applying::<I, S, C, L>::resume::<E>,
            (last.1, Ok::<(), E>(())),
            context,
        ),
    ensures
        cloned(index_manager, start.0.index_manager),
        cloned(config_manager, start.0.config_manager),
        start.1.ndb_manager == ndb_manager,
        *applied_to == config_manager,
        context.index_manager == index_manager,
        context.config_manager == config_manager,
        context.scanner == scanner,
        context.playlist_manager == playlist_manager,
{
}

} // verus!
