//! Watching public GitHub repositories: the decisions and the text of the tracker,
//! stated and proved. Fetching, sending and serving stand outside this crate.

pub mod text;
pub mod models;
pub mod config;
pub mod state;
pub mod monitor;
pub mod github;
pub mod telegram;
pub mod clock;
pub mod web;
