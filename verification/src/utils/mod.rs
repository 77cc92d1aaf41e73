//! Conversions between the shapes a pose takes.

pub mod converter;
