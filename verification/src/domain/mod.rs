//! The domain: what a game is, apart from screens and storage.

pub mod game;
