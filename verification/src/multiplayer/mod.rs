//! The session on the client: the connection and the login, the roster of
//! remote avatars, and the bootstrap of the scene.

pub mod bootstrap;
pub mod connection_module;
pub mod level_manager;
pub mod login_module;
pub mod multiplayer_manager;
pub mod spacetimedb_manager;
pub mod sync_time;
