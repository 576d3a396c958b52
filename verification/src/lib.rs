//! A reverse proxy for HTTP Live Streaming playlists.
//!
//! The crate holds the decisions of the proxy: which requests are accepted,
//! which addresses may be contacted, how an upstream answer becomes a response
//! and how the URIs of a playlist are rewritten so that a player comes back
//! through the proxy. Network work (name resolution, the upstream request, the
//! listener) is done by the program around it, which hands plain values in and
//! performs the actions that come back.

pub mod address;
pub mod config;
pub mod encode;
pub mod key;
pub mod playlist;
pub mod proxy;
pub mod response;
pub mod rewrite;
pub mod target;
