//! Authoritative world rules and client-side reconciliation for a small
//! multiplayer platformer.
//!
//! The server half ([`server`]) is a model of the shared world store: its
//! tables and the reducers that validate and mutate them.  The client half
//! predicts the local avatar and reconciles the remote ones against the
//! poses the store reports ([`characters`]), keeps the session and the
//! roster of remote avatars ([`multiplayer`]), and drives the login screen
//! ([`ui`]).
//!
//! All coordinates, velocities and distances are fixed-point integers,
//! counted in thousandths of a world unit ([`vector`]); identities and
//! times are plain numbers ([`identity`]).  Nothing here touches the engine
//! or the network: whatever needs them is handed in as values and handed
//! back as steps to take.

pub mod characters;
pub mod errors;
pub mod identity;
pub mod multiplayer;
pub mod server;
pub mod text;
pub mod ui;
pub mod utils;
pub mod vector;
