//! What the screens show.

pub mod login_manager;
