//! A client library for a cloud file store: the signed-in session and its
//! token file, remote path rules, share-link selection, and the steps of
//! finding or creating a public link and of revoking every link of a path.
pub mod text;
pub mod file;
pub mod links;
pub mod resolver;
pub mod auth;
pub mod command;
pub mod profile;
