//! The things of a scene that are not avatars.

pub mod coin;
pub mod killzone;
