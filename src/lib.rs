//! A small paste-sharing service: identifiers for pastes, the checks that
//! guard named uploads, and the decisions behind each route.
pub mod auth;
pub mod laws;
pub mod paste_id;
pub mod routes;
