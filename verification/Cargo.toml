[package]
name = "phantom"
version = "0.1.0"
edition = "2021"
publish = false

[dependencies]
regex = "1"
base64 = "0.22"
serde = { version = "1", features = ["derive"] }
serde_json = "1"
anyhow = "1"
clap = { version = "4", features = ["derive"] }
clap_complete = "4"
crossbeam-channel = "0.5"
crossterm = "*"
ctrlc = "3"
fontdue = "*"
image = { version = "*", default-features = false, features = ["png"] }
libghostty-vt = "*"
mio = { version = "1", features = ["os-poll", "os-ext"] }
nix = { version = "*", features = ["term", "process", "signal", "fs", "ioctl"] }
ratatui = "*"
rmcp = { version = "*", features = ["server", "macros", "transport-io"] }
schemars = "*"
throbber-widgets-tui = "*"
tokio = { version = "1", features = ["full"] }
tracing = "0.1"
tracing-subscriber = { version = "0.3", features = ["env-filter"] }
