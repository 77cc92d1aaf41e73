//! The authoritative world store: its rows, its tables, and the reducers
//! that are the only way to change them.
//!
//! A reducer takes the [`store::ReducerContext`] of one call, validates the
//! request against the tables and either applies every change it stands for
//! or fails and leaves the store as it was.

pub mod elements;
pub mod interaction;
pub mod laws;
pub mod movement;
pub mod registration;
pub mod setup;
pub mod store;
pub mod world_scene_config;
