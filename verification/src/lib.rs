//! The request-handling rules of a music streaming server.

pub mod catalog;
pub mod config;
pub mod context;
pub mod convert;
pub mod error;
pub mod laws;
pub mod media;
pub mod outside;
pub mod playlists;
pub mod routes;
pub mod settings;
pub mod step;
pub mod text;
pub mod users;
pub mod version;
