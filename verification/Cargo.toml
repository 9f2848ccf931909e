[package]
name = "tdf"
version = "0.1.0"
edition = "2021"
publish = false

[dependencies]
bitcode = "=0.6.9"
csscolorparser = "=0.9.0"
image = { version = "=0.25.10", default-features = false, features = ["pnm"] }
ratatui = { version = "=0.30.2", default-features = false, features = ["crossterm"] }
crossterm = { version = "=0.29.0", features = ["event-stream"] }
flume = "=0.11.1"
futures-util = "=0.3.34"
tokio = { version = "=1.54.1", features = ["rt-multi-thread", "macros"] }
xflags = "=0.3.2"
dirs = "=6.0.0"
log = "=0.4.34"
notify = "=8.2.0"
nix = { version = "=0.30.1", features = ["signal"] }
kittage = { version = "*", features = ["crossterm-tokio"] }
