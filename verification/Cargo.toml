[package]
name = "gh_tui"
version = "0.1.0"
edition = "2021"
publish = false

[dependencies]
chrono = "=0.4.45"
octocrab = "=0.43.0"
tokio = { version = "=1.53.2", features = ["macros", "rt-multi-thread", "time"] }
clap = { version = "=4.6.7", features = ["derive", "env"] }
serde = { version = "=1.0.229", features = ["derive"] }
serde_json = "=1.0.151"
crossterm = "=0.29.0"
ratatui = "=0.30.2"
keyring = { version = "=3.6.3", default-features = false, features = ["linux-native"] }
dirs = "=7.0.0"
toml = "=1.1.7"
dialoguer = { version = "=0.12.0", default-features = false }
colored = "=3.1.1"
comfy-table = { version = "=8.0.1", default-features = false }
thiserror = "=2.0.21"
async-trait = "=0.1.92"
