//! The part of the server configuration that requests read and fill.

use vstd::prelude::*;

verus! {

/// An account.
#[derive(Debug)]
pub struct User {
    pub name: String,
    /// The password to set when the configuration is applied.
    pub initial_password: Option<String>,
    /// Whether the account has administrator rights; `None` where it was never
    /// said.
    pub admin: Option<bool>,
}

/// A folder of the collection, and the name it is shown under.
#[derive(Debug)]
pub struct MountDir {
    pub name: String,
    pub source: String,
}

/// The configuration.
#[derive(Debug)]
pub struct Config {
    pub users: Vec<User>,
    pub mount_dirs: Vec<MountDir>,
}

/// The view of a [`User`].
pub struct UserView {
    pub name: Seq<char>,
    pub initial_password: Option<Seq<char>>,
    pub admin: Option<bool>,
}

/// The view of a [`MountDir`].
pub struct MountDirView {
    pub name: Seq<char>,
    pub source: Seq<char>,
}

/// The view of a [`Config`].
pub struct ConfigView {
    pub users: Seq<UserView>,
    pub mount_dirs: Seq<MountDirView>,
}

impl View for User {
    type V = UserView;

    open spec fn view(&self) -> UserView {
        UserView {
            name: self.name@,
            initial_password: match self.initial_password {
                Some(password) => Some(password@),
                None => None,
            },
            admin: self.admin,
        }
    }
}

impl View for MountDir {
    type V = MountDirView;

    open spec fn view(&self) -> MountDirView {
        MountDirView { name: self.name@, source: self.source@ }
    }
}

impl View for Config {
    type V = ConfigView;

    open spec fn view(&self) -> ConfigView {
        ConfigView {
            users: Seq::new(self.users@.len(), |i: int| self.users@[i]@),
            mount_dirs: Seq::new(self.mount_dirs@.len(), |i: int| self.mount_dirs@[i]@),
        }
    }
}

impl Default for Config {
    /// The configuration of a new server: no account, no folder.
    fn default() -> (config: Config)
        ensures
            config@ == (ConfigView { users: Seq::empty(), mount_dirs: Seq::empty() }),
    {
        let config = Config { users: Vec::new(), mount_dirs: Vec::new() };
        proof {
            assert(config@.users == Seq::<UserView>::empty());
            assert(config@.mount_dirs == Seq::<MountDirView>::empty());
        }
        config
    }
}

} // verus!
