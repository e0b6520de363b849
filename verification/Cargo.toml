[package]
name = "asmhex"
version = "0.1.0"
edition = "2021"
publish = false

[dependencies]
object = "=0.40.0"
zydis = "=3.1.3"
clap = { version = "=4.6.7", features = ["derive"] }
ratatui = "=0.28.1"
tui-textarea = "=0.6.1"
mktemp = "=0.5.1"
