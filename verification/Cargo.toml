[package]
name = "console_player"
version = "0.1.0"
edition = "2021"
publish = false

[dependencies]
bon = "*"
clap = { version = "*", features = ["derive"] }
color-eyre = "*"
derive_more = { version = "*", features = ["display", "from"] }
directories = "*"
discord_game_sdk = "*"
dotenv = "*"
fd-lock = "*"
log = "*"
ratatui = "*"
serde = { version = "*", features = ["derive"] }
signal-hook = "*"
strum = { version = "*", features = ["derive"] }
thiserror = "*"
toml = "*"
tracing = "*"
tracing-journald = "*"
tracing-subscriber = "*"
tui-input = "*"
tui-logger = "*"
