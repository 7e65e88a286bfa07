//! Verified core of a Boil network IP manager.
pub mod boil;
pub mod bot;
pub mod cli;
pub mod config;
pub mod json;
pub mod probe;
pub mod quality;
pub mod reconnect;
pub mod report;
pub mod text;
pub mod timer;
