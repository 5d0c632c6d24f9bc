//! What the operations of the library are for: of each, how its result follows
//! from its inputs.

pub mod accounts;
pub mod collection;
pub mod files;
pub mod lists;
pub mod playlists;
pub mod server;
pub mod settings;
pub mod texts;
