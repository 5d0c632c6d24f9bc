//! Which operation serves which method and path, and who may ask for it.

use vstd::prelude::*;

verus! {

/// The largest body, in bytes, that a request may have.
pub const BODY_LIMIT: usize = 10 * 1024 * 1024;

/// The method of a request.
#[derive(Debug, Clone, Copy, PartialEq, Eq, Structural)]
pub enum Method {
    Get,
    Post,
    Put,
    Delete,
}

/// Who may ask for an operation.
#[derive(Debug, Clone, Copy, PartialEq, Eq, Structural)]
pub enum Access {
    /// Anyone.
    Public,
    /// Anyone who has logged in.
    User,
    /// Whoever has administrator rights.
    Admin,
}

/// How hard an answer is compressed.
#[derive(Debug, Clone, Copy, PartialEq, Eq, Structural)]
pub enum CompressionLevel {
    /// As fast as can be, though the answer stays larger.
    Fastest,
    /// As the compression algorithm sees fit.
    Default,
    /// As small as can be, though it takes longer.
    Best,
    /// By a level of the compression algorithm's own.
    Precise(i32),
}

/// What the server can be asked for.
#[derive(Debug, Clone, Copy, PartialEq, Eq, Structural)]
pub enum Operation {
    GetVersion,
    GetInitialSetup,
    PostAuth,
    GetSettings,
    PutSettings,
    GetMountDirs,
    PutMountDirs,
    PostTriggerIndex,
    GetIndexStatus,
    PostUser,
    DeleteUser,
    PutUser,
    GetUsers,
    GetBrowseRoot,
    GetBrowse,
    GetFlattenRoot,
    GetFlatten,
    GetAlbums,
    GetRecentAlbums,
    GetRandomAlbums,
    GetArtists,
    GetArtist,
    GetAlbum,
    GetGenres,
    GetGenre,
    GetGenreAlbums,
    GetGenreArtists,
    GetGenreSongs,
    GetSearch,
    GetPlaylists,
    PutPlaylist,
    GetPlaylist,
    DeletePlaylist,
    GetSongs,
    GetPeaks,
    GetThumbnail,
    GetAudio,
}

/// A method and a path, and how a request for them is served.
#[derive(Debug, Clone, Copy)]
pub struct Route {
    pub method: Method,
    /// The path, with its parameters in braces; `*` marks one that takes the
    /// rest of the path.
    pub path: &'static str,
    pub operation: Operation,
    /// Whether the route is part of the API description. Those that are not are
    /// kept for old clients.
    pub documented: bool,
    /// How hard the answer is compressed; `None` sends it as it is.
    pub compression: Option<CompressionLevel>,
    /// The largest body that a request may have, where the route sets a limit
    /// of its own.
    pub body_limit: Option<usize>,
}

impl Operation {
    /// The method that asks for the operation.
    pub open spec fn spec_method(self) -> Method {
        match self {
            Operation::PostAuth
            | Operation::PostTriggerIndex
            | Operation::PostUser
            | Operation::GetSongs => Method::Post,
            Operation::PutSettings
            | Operation::PutMountDirs
            | Operation::PutUser
            | Operation::PutPlaylist => Method::Put,
            Operation::DeleteUser
            | Operation::DeletePlaylist => Method::Delete,
            _ => Method::Get,
        }
    }

    /// The path of the operation.
    pub open spec fn spec_path(self) -> &'static str {
        match self {
            Operation::GetVersion => "/version",
            Operation::GetInitialSetup => "/initial_setup",
            Operation::PostAuth => "/auth",
            Operation::GetSettings => "/settings",
            Operation::PutSettings => "/settings",
            Operation::GetMountDirs => "/mount_dirs",
            Operation::PutMountDirs => "/mount_dirs",
            Operation::PostTriggerIndex => "/trigger_index",
            Operation::GetIndexStatus => "/index_status",
            Operation::PostUser => "/user",
            Operation::DeleteUser => "/user/{name}",
            Operation::PutUser => "/user/{name}",
            Operation::GetUsers => "/users",
            Operation::GetBrowseRoot => "/browse",
            Operation::GetBrowse => "/browse/{*path}",
            Operation::GetFlattenRoot => "/flatten",
            Operation::GetFlatten => "/flatten/{*path}",
            Operation::GetAlbums => "/albums",
            Operation::GetRecentAlbums => "/albums/recent",
            Operation::GetRandomAlbums => "/albums/random",
            Operation::GetArtists => "/artists",
            Operation::GetArtist => "/artists/{artist}",
            Operation::GetAlbum => "/artists/{artists}/albums/{album}",
            Operation::GetGenres => "/genres",
            Operation::GetGenre => "/genres/{genre}",
            Operation::GetGenreAlbums => "/genres/{genre}/albums",
            Operation::GetGenreArtists => "/genres/{genre}/artists",
            Operation::GetGenreSongs => "/genres/{genre}/songs",
            Operation::GetSearch => "/search/{*query}",
            Operation::GetPlaylists => "/playlists",
            Operation::PutPlaylist => "/playlist/{name}",
            Operation::GetPlaylist => "/playlist/{name}",
            Operation::DeletePlaylist => "/playlist/{name}",
            Operation::GetSongs => "/songs",
            Operation::GetPeaks => "/peaks/{*path}",
            Operation::GetThumbnail => "/thumbnail/{*path}",
            Operation::GetAudio => "/audio/{*path}",
        }
    }

    /// Who may ask for the operation.
    pub open spec fn spec_access(self) -> Access {
        match self {
            Operation::GetVersion
            | Operation::GetInitialSetup
            | Operation::PostAuth => Access::Public,
            Operation::GetSettings
            | Operation::PutSettings
            | Operation::GetMountDirs
            | Operation::PutMountDirs
            | Operation::PostTriggerIndex
            | Operation::GetIndexStatus
            | Operation::PostUser
            | Operation::DeleteUser
            | Operation::PutUser
            | Operation::GetUsers => Access::Admin,
            _ => Access::User,
        }
    }

    /// The method that asks for the operation.
    pub fn method(self) -> (method: Method)
        ensures
            method == self.spec_method(),
    {
        match self {
            Operation::PostAuth
            | Operation::PostTriggerIndex
            | Operation::PostUser
            | Operation::GetSongs => Method::Post,
            Operation::PutSettings
            | Operation::PutMountDirs
            | Operation::PutUser
            | Operation::PutPlaylist => Method::Put,
            Operation::DeleteUser
            | Operation::DeletePlaylist => Method::Delete,
            _ => Method::Get,
        }
    }

    /// The path of the operation.
    pub fn path(self) -> (path: &'static str)
        ensures
            path == self.spec_path(),
    {
        match self {
            Operation::GetVersion => "/version",
            Operation::GetInitialSetup => "/initial_setup",
            Operation::PostAuth => "/auth",
            Operation::GetSettings => "/settings",
            Operation::PutSettings => "/settings",
            Operation::GetMountDirs => "/mount_dirs",
            Operation::PutMountDirs => "/mount_dirs",
            Operation::PostTriggerIndex => "/trigger_index",
            Operation::GetIndexStatus => "/index_status",
            Operation::PostUser => "/user",
            Operation::DeleteUser => "/user/{name}",
            Operation::PutUser => "/user/{name}",
            Operation::GetUsers => "/users",
            Operation::GetBrowseRoot => "/browse",
            Operation::GetBrowse => "/browse/{*path}",
            Operation::GetFlattenRoot => "/flatten",
            Operation::GetFlatten => "/flatten/{*path}",
            Operation::GetAlbums => "/albums",
            Operation::GetRecentAlbums => "/albums/recent",
            Operation::GetRandomAlbums => "/albums/random",
            Operation::GetArtists => "/artists",
            Operation::GetArtist => "/artists/{artist}",
            Operation::GetAlbum => "/artists/{artists}/albums/{album}",
            Operation::GetGenres => "/genres",
            Operation::GetGenre => "/genres/{genre}",
            Operation::GetGenreAlbums => "/genres/{genre}/albums",
            Operation::GetGenreArtists => "/genres/{genre}/artists",
            Operation::GetGenreSongs => "/genres/{genre}/songs",
            Operation::GetSearch => "/search/{*query}",
            Operation::GetPlaylists => "/playlists",
            Operation::PutPlaylist => "/playlist/{name}",
            Operation::GetPlaylist => "/playlist/{name}",
            Operation::DeletePlaylist => "/playlist/{name}",
            Operation::GetSongs => "/songs",
            Operation::GetPeaks => "/peaks/{*path}",
            Operation::GetThumbnail => "/thumbnail/{*path}",
            Operation::GetAudio => "/audio/{*path}",
        }
    }

    /// Who may ask for the operation.
    pub fn access(self) -> (access: Access)
        ensures
            access == self.spec_access(),
    {
        match self {
            Operation::GetVersion
            | Operation::GetInitialSetup
            | Operation::PostAuth => Access::Public,
            Operation::GetSettings
            | Operation::PutSettings
            | Operation::GetMountDirs
            | Operation::PutMountDirs
            | Operation::PostTriggerIndex
            | Operation::GetIndexStatus
            | Operation::PostUser
            | Operation::DeleteUser
            | Operation::PutUser
            | Operation::GetUsers => Access::Admin,
            _ => Access::User,
        }
    }
}

/// The documented route of an operation. Audio files are sent as they are, and
/// set no limit of their own.
pub open spec fn served(operation: Operation) -> Route {
    Route {
        method: operation.spec_method(),
        path: operation.spec_path(),
        operation,
        documented: true,
        compression: if operation == Operation::GetAudio {
            None
        } else {
            Some(CompressionLevel::Fastest)
        },
        body_limit: if operation == Operation::GetAudio {
            None
        } else {
            Some(BODY_LIMIT)
        },
    }
}

/// A route at a path that an operation had before.
pub open spec fn deprecated(operation: Operation, path: &'static str) -> Route {
    Route { path, documented: false, ..served(operation) }
}

/// The routes of the server.
pub open spec fn route_table() -> Seq<Route> {
    seq![
        served(Operation::GetVersion),
        served(Operation::GetInitialSetup),
        served(Operation::PostAuth),
        served(Operation::GetSettings),
        served(Operation::PutSettings),
        served(Operation::GetMountDirs),
        served(Operation::PutMountDirs),
        served(Operation::PostTriggerIndex),
        served(Operation::GetIndexStatus),
        served(Operation::PostUser),
        served(Operation::DeleteUser),
        served(Operation::PutUser),
        served(Operation::GetUsers),
        served(Operation::GetBrowseRoot),
        served(Operation::GetBrowse),
        served(Operation::GetFlattenRoot),
        served(Operation::GetFlatten),
        served(Operation::GetAlbums),
        served(Operation::GetRecentAlbums),
        served(Operation::GetRandomAlbums),
        served(Operation::GetArtists),
        served(Operation::GetArtist),
        served(Operation::GetAlbum),
        served(Operation::GetGenres),
        served(Operation::GetGenre),
        served(Operation::GetGenreAlbums),
        served(Operation::GetGenreArtists),
        served(Operation::GetGenreSongs),
        deprecated(Operation::GetRandomAlbums, "/random"),
        deprecated(Operation::GetRecentAlbums, "/recent"),
        served(Operation::GetSearch),
        served(Operation::GetPlaylists),
        served(Operation::PutPlaylist),
        served(Operation::GetPlaylist),
        served(Operation::DeletePlaylist),
        served(Operation::GetSongs),
        served(Operation::GetPeaks),
        served(Operation::GetThumbnail),
        served(Operation::GetAudio),
    ]
}

fn serve(operation: Operation) -> (route: Route)
    ensures
        route == served(operation),
{
    let is_audio = matches!(operation, Operation::GetAudio);
    Route {
        method: operation.method(),
        path: operation.path(),
        operation,
        documented: true,
        compression: if is_audio {
            None
        } else {
            Some(CompressionLevel::Fastest)
        },
        body_limit: if is_audio {
            None
        } else {
            Some(BODY_LIMIT)
        },
    }
}

fn serve_at(operation: Operation, path: &'static str) -> (route: Route)
    ensures
        route == deprecated(operation, path),
{
    let route = serve(operation);
    Route { path, documented: false, ..route }
}

/// The routes of the server.
pub fn router() -> (routes: Vec<Route>)
    ensures
        routes@ == route_table(),
{
    vec![
        serve(Operation::GetVersion),
        serve(Operation::GetInitialSetup),
        serve(Operation::PostAuth),
        serve(Operation::GetSettings),
        serve(Operation::PutSettings),
        serve(Operation::GetMountDirs),
        serve(Operation::PutMountDirs),
        serve(Operation::PostTriggerIndex),
        serve(Operation::GetIndexStatus),
        serve(Operation::PostUser),
        serve(Operation::DeleteUser),
        serve(Operation::PutUser),
        serve(Operation::GetUsers),
        serve(Operation::GetBrowseRoot),
        serve(Operation::GetBrowse),
        serve(Operation::GetFlattenRoot),
        serve(Operation::GetFlatten),
        serve(Operation::GetAlbums),
        serve(Operation::GetRecentAlbums),
        serve(Operation::GetRandomAlbums),
        serve(Operation::GetArtists),
        serve(Operation::GetArtist),
        serve(Operation::GetAlbum),
        serve(Operation::GetGenres),
        serve(Operation::GetGenre),
        serve(Operation::GetGenreAlbums),
        serve(Operation::GetGenreArtists),
        serve(Operation::GetGenreSongs),
        serve_at(Operation::GetRandomAlbums, "/random"),
        serve_at(Operation::GetRecentAlbums, "/recent"),
        serve(Operation::GetSearch),
        serve(Operation::GetPlaylists),
        serve(Operation::PutPlaylist),
        serve(Operation::GetPlaylist),
        serve(Operation::DeletePlaylist),
        serve(Operation::GetSongs),
        serve(Operation::GetPeaks),
        serve(Operation::GetThumbnail),
        serve(Operation::GetAudio),
    ]
}

/// Where the documented route of an operation stands in the table.
spec fn place(operation: Operation) -> int {
    match operation {
        Operation::GetVersion => 0,
        Operation::GetInitialSetup => 1,
        Operation::PostAuth => 2,
        Operation::GetSettings => 3,
        Operation::PutSettings => 4,
        Operation::GetMountDirs => 5,
        Operation::PutMountDirs => 6,
        Operation::PostTriggerIndex => 7,
        Operation::GetIndexStatus => 8,
        Operation::PostUser => 9,
        Operation::DeleteUser => 10,
        Operation::PutUser => 11,
        Operation::GetUsers => 12,
        Operation::GetBrowseRoot => 13,
        Operation::GetBrowse => 14,
        Operation::GetFlattenRoot => 15,
        Operation::GetFlatten => 16,
        Operation::GetAlbums => 17,
        Operation::GetRecentAlbums => 18,
        Operation::GetRandomAlbums => 19,
        Operation::GetArtists => 20,
        Operation::GetArtist => 21,
        Operation::GetAlbum => 22,
        Operation::GetGenres => 23,
        Operation::GetGenre => 24,
        Operation::GetGenreAlbums => 25,
        Operation::GetGenreArtists => 26,
        Operation::GetGenreSongs => 27,
        Operation::GetSearch => 30,
        Operation::GetPlaylists => 31,
        Operation::PutPlaylist => 32,
        Operation::GetPlaylist => 33,
        Operation::DeletePlaylist => 34,
        Operation::GetSongs => 35,
        Operation::GetPeaks => 36,
        Operation::GetThumbnail => 37,
        Operation::GetAudio => 38,
    }
}

/// Where the route of a method and a path stands in the table, judged by the
/// length of the path, its second character and its last but one.
spec fn position(method: Method, path: Seq<char>) -> int {
    let a = path[1];
    let z = path[path.len() - 2];
    if path.len() == 5 {
        if a == 'a' && z == 't' {
            2
        } else {
            9
        }
    } else if path.len() == 6 {
        if a == 'u' && z == 'r' {
            12
        } else {
            35
        }
    } else if path.len() == 7 {
        if a == 'b' && z == 's' {
            13
        } else if a == 'a' && z == 'm' {
            17
        } else if a == 'g' && z == 'e' {
            23
        } else if a == 'r' && z == 'o' {
            28
        } else {
            29
        }
    } else if path.len() == 8 {
        if a == 'v' && z == 'o' {
            0
        } else if a == 'f' && z == 'e' {
            15
        } else {
            20
        }
    } else if path.len() == 9 {
        match method {
            Method::Get => 3,
            _ => 4,
        }
    } else if path.len() == 10 {
        31
    } else if path.len() == 11 {
        match method {
            Method::Get => 5,
            _ => 6,
        }
    } else if path.len() == 12 {
        match method {
            Method::Delete => 10,
            _ => 11,
        }
    } else if path.len() == 13 {
        8
    } else if path.len() == 14 {
        if a == 'i' && z == 'u' {
            1
        } else if a == 't' && z == 'e' {
            7
        } else if a == 'a' && z == 'n' {
            18
        } else if a == 'a' && z == 'o' {
            19
        } else if a == 'p' && z == 'h' {
            36
        } else {
            38
        }
    } else if path.len() == 15 {
        if a == 'b' && z == 'h' {
            14
        } else {
            24
        }
    } else if path.len() == 16 {
        if a == 'f' && z == 'h' {
            16
        } else if a == 's' && z == 'y' {
            30
        } else {
            match method {
                Method::Put => 32,
                Method::Get => 33,
                _ => 34,
            }
        }
    } else if path.len() == 17 {
        21
    } else if path.len() == 18 {
        37
    } else if path.len() == 21 {
        27
    } else if path.len() == 22 {
        25
    } else if path.len() == 23 {
        26
    } else if path.len() == 33 {
        22
    } else {
        -1
    }
}

proof fn lemma_position(i: int)
    requires
        0 <= i < route_table().len(),
    ensures
        position(route_table()[i].method, route_table()[i].path@) == i,
{
    reveal_strlit("/version");
    reveal_strlit("/initial_setup");
    reveal_strlit("/auth");
    reveal_strlit("/settings");
    reveal_strlit("/mount_dirs");
    reveal_strlit("/trigger_index");
    reveal_strlit("/index_status");
    reveal_strlit("/user");
    reveal_strlit("/user/{name}");
    reveal_strlit("/users");
    reveal_strlit("/browse");
    reveal_strlit("/browse/{*path}");
    reveal_strlit("/flatten");
    reveal_strlit("/flatten/{*path}");
    reveal_strlit("/albums");
    reveal_strlit("/albums/recent");
    reveal_strlit("/albums/random");
    reveal_strlit("/artists");
    reveal_strlit("/artists/{artist}");
    reveal_strlit("/artists/{artists}/albums/{album}");
    reveal_strlit("/genres");
    reveal_strlit("/genres/{genre}");
    reveal_strlit("/genres/{genre}/albums");
    reveal_strlit("/genres/{genre}/artists");
    reveal_strlit("/genres/{genre}/songs");
    reveal_strlit("/random");
    reveal_strlit("/recent");
    reveal_strlit("/search/{*query}");
    reveal_strlit("/playlists");
    reveal_strlit("/playlist/{name}");
    reveal_strlit("/songs");
    reveal_strlit("/peaks/{*path}");
    reveal_strlit("/thumbnail/{*path}");
    reveal_strlit("/audio/{*path}");
}

/// No request is ambiguous: no two routes have the same method and path.
pub proof fn law_routes_are_unambiguous(i: int, j: int)
    requires
        0 <= i < j < route_table().len(),
    ensures
        route_table()[i].method != route_table()[j].method || route_table()[i].path@
            != route_table()[j].path@,
{
    lemma_position(i);
    lemma_position(j);
}

/// Every operation can be asked for, at its documented method and path.
pub proof fn law_every_operation_is_served(operation: Operation)
    ensures
        route_table().contains(served(operation)),
{
    assert(route_table()[place(operation)] == served(operation));
}

/// Every answer but an audio file is compressed, as fast as can be, and every
/// request but one for an audio file is held to the body limit.
pub proof fn law_only_audio_is_sent_as_it_is(i: int)
    requires
        0 <= i < route_table().len(),
    ensures
        route_table()[i].operation == Operation::GetAudio ==> {
            &&& route_table()[i].compression is None
            &&& route_table()[i].body_limit is None
        },
        route_table()[i].operation != Operation::GetAudio ==> {
            &&& route_table()[i].compression == Some(CompressionLevel::Fastest)
            &&& route_table()[i].body_limit == Some(BODY_LIMIT)
        },
{
}

/// A path kept for old clients is served as the documented path of its
/// operation is.
pub proof fn law_deprecated_routes_are_aliases(i: int)
    requires
        0 <= i < route_table().len(),
    ensures
        route_table()[i] == (Route {
            path: route_table()[i].path,
            documented: route_table()[i].documented,
            ..served(route_table()[i].operation)
        }),
        route_table()[i].documented ==> route_table()[i] == served(route_table()[i].operation),
{
}

} // verus!
