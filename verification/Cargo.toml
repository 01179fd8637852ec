[package]
name = "goal_relay"
version = "0.1.0"
edition = "2021"
publish = false

[dependencies]
chrono = "=0.4.45"
futures-util = "=0.3.34"
log = "=0.4.34"
roux = "=2.2.15"
roux-stream = "=0.2.0"
# Not used directly: teloxide-core takes any takecell 0.1, and 0.1.2 asks for
# Rust 1.96. Holding the release before it keeps the build on Rust 1.95.
takecell = "=0.1.1"
teloxide = { version = "=0.12.2", default-features = false, features = ["native-tls"] }
tokio = { version = "=1.54.1", features = ["macros", "rt-multi-thread", "time"] }
tokio-retry = "=0.3.2"
