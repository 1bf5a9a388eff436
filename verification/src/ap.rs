//! Bringing up the access point.

pub mod settings;
