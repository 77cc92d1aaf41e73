//! The avatars: how the local one moves, and how the remote ones are kept
//! in step with what the store reports.
//!
//! Velocities are fixed-point steps per second and times are microseconds;
//! factors such as the damping of momentum are thousandths.

pub mod basic_player;
pub mod correction_laws;
pub mod entities;
pub mod local_player;
pub mod player_animation;
pub mod remote_player;
