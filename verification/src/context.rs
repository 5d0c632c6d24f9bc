//! Putting a server together from its managers and a configuration.

use vstd::prelude::*;

use crate::config::{Config, ConfigView, MountDir, MountDirView, User, UserView};
use crate::convert::clones_are_equal;

verus! {

/// The name of the configuration file in the directory of a server.
pub const CONFIG_FILE: &'static str = "polaris.toml";

/// The managers of a running server.
#[derive(Debug)]
pub struct Context<I, S, C, L> {
    pub index_manager: I,
    pub scanner: S,
    pub config_manager: C,
    pub playlist_manager: L,
}

/// Collects the configuration of a server that lives in one directory. Its
/// view is the configuration collected.
#[derive(Debug)]
pub struct ContextBuilder<P> {
    config: Config,
    pub test_directory: P,
}

impl<P> View for ContextBuilder<P> {
    type V = ConfigView;

    closed spec fn view(&self) -> ConfigView {
        self.config@
    }
}

impl<P> ContextBuilder<P> {
    /// The directory that the server lives in.
    pub closed spec fn directory(&self) -> P {
        self.test_directory
    }

    /// Starts with nothing configured, in a directory that has been prepared.
    pub fn new(test_directory: P) -> (builder: Self)
        ensures
            builder.directory() == test_directory,
            builder@ == (ConfigView { users: Seq::empty(), mount_dirs: Seq::empty() }),
    {
        ContextBuilder { test_directory, config: Config::default() }
    }

    /// Adds an account behind those there are.
    pub fn user(self, name: &str, password: &str, is_admin: bool) -> (builder: Self)
        ensures
            builder.directory() == self.directory(),
            builder@ == (ConfigView {
                users: self@.users.push(
                    UserView {
                        name: name@,
                        initial_password: Some(password@),
                        admin: Some(is_admin),
                    },
                ),
                mount_dirs: self@.mount_dirs,
            }),
    {
        let mut config = self.config;
        let ghost before = config@;
        config.users.push(
            User {
                name: name.to_owned(),
                initial_password: Some(password.to_owned()),
                admin: Some(is_admin),
            },
        );
        proof {
            assert(config@.users == before.users.push(config.users@.last()@));
            assert(config@.mount_dirs == before.mount_dirs);
        }
        ContextBuilder { config, test_directory: self.test_directory }
    }

    /// Adds a folder behind those there are.
    pub fn mount(self, name: &str, source: &str) -> (builder: Self)
        ensures
            builder.directory() == self.directory(),
            builder@ == (ConfigView {
                users: self@.users,
                mount_dirs: self@.mount_dirs.push(
                    MountDirView { name: name@, source: source@ },
                ),
            }),
    {
        let mut config = self.config;
        let ghost before = config@;
        config.mount_dirs.push(MountDir { name: name.to_owned(), source: source.to_owned() });
        proof {
            assert(config@.users == before.users);
            assert(config@.mount_dirs == before.mount_dirs.push(config.mount_dirs@.last()@));
        }
        ContextBuilder { config, test_directory: self.test_directory }
    }

    /// Where the first managers are to be opened: the configuration on the file
    /// [`CONFIG_FILE`] in the directory of the server, the database and the index
    /// on the directory itself.
    pub fn managers_to_open(&self) -> (open: OpenManagers<P>) where P: Clone
        ensures
            cloned(self.directory(), open.config_directory),
            open.config_file@ == CONFIG_FILE@,
            cloned(self.directory(), open.ndb_directory),
            cloned(self.directory(), open.index_directory),
    {
        OpenManagers {
            config_directory: self.test_directory.clone(),
            config_file: CONFIG_FILE,
            ndb_directory: self.test_directory.clone(),
            index_directory: self.test_directory.clone(),
        }
    }

    /// Goes on once the first managers have been opened in the directory. The
    /// scanner is to work on the very index and configuration that the server
    /// serves, the playlist manager on the database that was opened.
    pub fn build<C: Clone, N, I: Clone>(
        self,
        config_manager: C,
        ndb_manager: N,
        index_manager: I,
    ) -> (start: (StartScanner<I, C>, OpenPlaylists<N>, Building<I, C>))
        ensures
            starts(self@, config_manager, ndb_manager, index_manager, start),
    {
        (
            StartScanner {
                index_manager: index_manager.clone(),
                config_manager: config_manager.clone(),
            },
            OpenPlaylists { ndb_manager },
            Building { index_manager, config_manager, config: self.config },
        )
    }
}

/// `start` is how a server with the configuration `config` is put together
/// from its first managers.
pub open spec fn starts<C: Clone, N, I: Clone>(
    config: ConfigView,
    config_manager: C,
    ndb_manager: N,
    index_manager: I,
    start: (StartScanner<I, C>, OpenPlaylists<N>, Building<I, C>),
) -> bool {
    &&& cloned(index_manager, start.0.index_manager)
    &&& cloned(config_manager, start.0.config_manager)
    &&& start.1 == (OpenPlaylists { ndb_manager })
    &&& start.2.index_manager() == index_manager
    &&& start.2.config_manager() == config_manager
    &&& start.2@ == config
}

/// `last` is how a server goes on once its scanner and its playlists are there.
pub open spec fn finishes<I, S, C, L>(
    building: Building<I, C>,
    scanner: S,
    playlist_manager: L,
    last: (Config, Applying<I, S, C, L>),
) -> bool {
    &&& last.0@ == building@
    &&& last.1.context() == (Context {
        index_manager: building.index_manager(),
        scanner,
        config_manager: building.config_manager(),
        playlist_manager,
    })
}

/// The calls that open the first managers.
#[derive(Debug)]
pub struct OpenManagers<P> {
    /// The directory of the configuration file.
    pub config_directory: P,
    /// The name of the configuration file in it.
    pub config_file: &'static str,
    /// The directory of the database.
    pub ndb_directory: P,
    /// The directory of the index.
    pub index_directory: P,
}

/// The call that starts a scanner.
#[derive(Debug)]
pub struct StartScanner<I, C> {
    pub index_manager: I,
    pub config_manager: C,
}

/// The call that opens the playlists.
#[derive(Debug)]
pub struct OpenPlaylists<N> {
    pub ndb_manager: N,
}

/// A server that awaits its scanner and its playlists. Its view is the
/// configuration that is to be applied to it.
#[derive(Debug)]
pub struct Building<I, C> {
    index_manager: I,
    config_manager: C,
    config: Config,
}

impl<I, C> View for Building<I, C> {
    type V = ConfigView;

    closed spec fn view(&self) -> ConfigView {
        self.config@
    }
}

impl<I, C> Building<I, C> {
    /// The index that the server serves.
    pub closed spec fn index_manager(&self) -> I {
        self.index_manager
    }

    /// The configuration manager of the server.
    pub closed spec fn config_manager(&self) -> C {
        self.config_manager
    }

    /// Goes on once the scanner and the playlists are there: the configuration
    /// is to be applied next, to the configuration manager of the server.
    pub fn resume<S, L>(self, scanner: S, playlist_manager: L) -> (last: (
        Config,
        Applying<I, S, C, L>,
    ))
        ensures
            finishes(self, scanner, playlist_manager, last),
    {
        (
            self.config,
            Applying {
                context: Context {
                    index_manager: self.index_manager,
                    scanner,
                    config_manager: self.config_manager,
                    playlist_manager,
                },
            },
        )
    }
}

/// A server whose configuration is being applied.
#[derive(Debug)]
pub struct Applying<I, S, C, L> {
    context: Context<I, S, C, L>,
}

impl<I, S, C, L> Applying<I, S, C, L> {
    /// The managers of the server.
    pub closed spec fn context(&self) -> Context<I, S, C, L> {
        self.context
    }

    /// The manager that the configuration is to be applied to.
    pub fn config_manager(&self) -> (manager: &C)
        ensures
            *manager == self.context().config_manager,
    {
        &self.context.config_manager
    }

    /// The server, once its configuration has been applied.
    pub fn resume<E>(self, applied: Result<(), E>) -> (context: Context<I, S, C, L>)
        requires
            applied is Ok,
        ensures
            context == self.context(),
    {
        self.context
    }
}

/// A server serves the managers that were opened for it. Its scanner works on
/// clones of the index and the configuration manager that it serves, and the
/// configuration that is applied to that manager is the one that was collected.
pub proof fn law_server_is_what_was_built<P, N, I: Clone, S, C: Clone, L>(
    builder: ContextBuilder<P>,
    config_manager: C,
    ndb_manager: N,
    index_manager: I,
    start: (StartScanner<I, C>, OpenPlaylists<N>, Building<I, C>),
    scanner: S,
    playlist_manager: L,
    last: (Config, Applying<I, S, C, L>),
)
    requires
        starts(builder@, config_manager, ndb_manager, index_manager, start),
        finishes(start.2, scanner, playlist_manager, last),
    ensures
        cloned(index_manager, start.0.index_manager),
        cloned(config_manager, start.0.config_manager),
        clones_are_equal::<I>() && clones_are_equal::<C>() ==> start.0 == (StartScanner {
            index_manager,
            config_manager,
        }),
        start.1 == (OpenPlaylists { ndb_manager }),
        last.0@ == builder@,
        last.1.context() == (Context { index_manager, scanner, config_manager, playlist_manager }),
{
}

} // verus!
