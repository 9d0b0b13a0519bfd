//! Presence tracking for a curated list of games: the daemon's lifecycle as a
//! state machine, the game list and its entry form, and the domain types they
//! share. Every function comes with a contract that Verus proves.

pub mod app;
pub mod config;
pub mod daemon;
pub mod discord;
pub mod domain;
pub mod error;
pub mod game;
pub mod text;
pub mod tui;
pub mod widgets;
