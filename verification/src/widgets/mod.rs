//! Widgets that carry their own data.

pub mod game_widget;
