[package]
name = "git_cliff_tui"
version = "0.1.0"
edition = "2021"
publish = false

[dependencies]
ratatui = "*"
tui-markdown = "*"
throbber-widgets-tui = "*"
copypasta = "*"
clap = { version = "*", features = ["derive"] }
