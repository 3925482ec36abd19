[package]
name = "zencan"
version = "0.1.0"
edition = "2021"
publish = false

[dependencies]
crc16 = "*"
chrono = "*"
clap = { version = "=4.5.61", features = ["derive"] }
clap-num = "*"
clap_complete = { version = "=4.5.67", features = ["unstable-dynamic"] }
serde = { version = "1", features = ["derive"] }
toml = "*"
tokio = { version = "1", features = ["full"] }
futures = "*"
log = "*"
env_logger = "*"
anyhow = "*"
snafu = "*"
reedline = "*"
shlex = "1"
socketcan = "3"
async-trait = "*"
arbitrary-int = "*"
